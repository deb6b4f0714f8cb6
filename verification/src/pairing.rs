//! What a commissioner needs to pair with a bridge: the text of the QR code, the QR
//! code drawn in characters, and the code to type in by hand.

use rs_matter::data_model::cluster_basic_information::BasicInfoConfig;
use rs_matter::pairing::code::compute_pairing_code;
use rs_matter::pairing::qr::compute_qr_code;
use rs_matter::pairing::DiscoveryCapabilities;
use rs_matter::secure_channel::spake2p::VerifierData;
use rs_matter::utils::rand::dummy_rand;
use rs_matter::CommissioningData;
use vstd::prelude::*;

use crate::ids::{lemma_uuid_text_ascii, uuid_text};
use crate::matter::{device_name, serial_number, MatterError};
use crate::models::PairingInfo;
use crate::text::{chars_of, string_from_range};

verus! {

/// The passcode of a bridge where none is set.
pub const DEFAULT_PASSCODE: u32 = 20202021;

/// The discriminator of a bridge where none is set.
pub const DEFAULT_DISCRIMINATOR: u16 = 3840;

/// The vendor id that a bridge announces.
pub const VENDOR_ID: u16 = 0xFFF1;

/// The product id that a bridge announces.
pub const PRODUCT_ID: u16 = 0x8001;

/// How many bytes are set aside for the text of the QR code.
pub const QR_TEXT_BUFFER_LEN: usize = 2048;

/// What a bridge tells of itself as a device.
#[derive(Debug, Clone)]
pub struct DeviceDetails {
    pub vid: u16,
    pub pid: u16,
    pub hw_ver: u16,
    pub sw_ver: u32,
    pub sw_ver_str: String,
    pub serial_no: String,
    pub device_name: String,
}

/// The device details as a plain value.
pub struct DeviceDetailsView {
    pub vid: u16,
    pub pid: u16,
    pub hw_ver: u16,
    pub sw_ver: u32,
    pub sw_ver_str: Seq<char>,
    pub serial_no: Seq<char>,
    pub device_name: Seq<char>,
}

impl View for DeviceDetails {
    type V = DeviceDetailsView;

    open spec fn view(&self) -> DeviceDetailsView {
        DeviceDetailsView {
            vid: self.vid,
            pid: self.pid,
            hw_ver: self.hw_ver,
            sw_ver: self.sw_ver,
            sw_ver_str: self.sw_ver_str@,
            serial_no: self.serial_no@,
            device_name: self.device_name@,
        }
    }
}

/// The text of the QR code of a device that is found over IP, as the Matter stack
/// computes it in a buffer of the given length, or the text of its error.
pub uninterp spec fn qr_text_of(
    details: DeviceDetailsView,
    passcode: u32,
    discriminator: u16,
    buffer_len: nat,
) -> Result<Seq<char>, Seq<char>>;

/// The digits of the code that is typed in by hand, as the Matter stack computes them.
pub uninterp spec fn pairing_digits(passcode: u32, discriminator: u16) -> Seq<char>;

/// The QR code of a text, drawn in characters, or the text of the error where no QR
/// code holds the text.
pub uninterp spec fn qr_art_of(text: Seq<char>) -> Result<Seq<char>, Seq<char>>;

/// `rs_matter::pairing::qr::compute_qr_code`, for a device with a passcode that is
/// found over IP: the text of the QR code, or the text of the error that the stack
/// gives. The stack copies the serial number into 128 bytes, so a longer one is left
/// out, and so is a buffer too large to be worth allocating.
#[verifier::external_body]
fn compute_qr_text(details: &DeviceDetails, passcode: u32, discriminator: u16, buffer_len: usize)
    -> (r: Result<String, String>)
    requires
        details.serial_no@.len() <= 128,
        vstd::utf8::is_ascii_chars(details.serial_no@),
        buffer_len <= 0x10000,
    ensures
        match r {
            Ok(t) => qr_text_of(details@, passcode, discriminator, buffer_len as nat) == Ok::<
                Seq<char>,
                Seq<char>,
            >(t@),
            Err(e) => qr_text_of(details@, passcode, discriminator, buffer_len as nat) == Err::<
                Seq<char>,
                Seq<char>,
            >(e@),
        },
{
    let dev_det = BasicInfoConfig {
        vid: details.vid, pid: details.pid, hw_ver: details.hw_ver, sw_ver: details.sw_ver,
        sw_ver_str: details.sw_ver_str.as_str(),
        serial_no: details.serial_no.as_str(),
        device_name: details.device_name.as_str(),
    };
    let verifier = VerifierData::new_with_pw(passcode, dummy_rand);
    let comm_data = CommissioningData { verifier, discriminator };
    let mut buf = vec![0u8; buffer_len];
    match compute_qr_code(&dev_det, &comm_data, DiscoveryCapabilities::default(), &mut buf) {
        Ok(text) => Ok(text.to_string()),
        Err(err) => Err(err.to_string()),
    }
}

/// `rs_matter::pairing::code::compute_pairing_code`, for a device with a passcode: the
/// digits of the code that is typed in by hand.
#[verifier::external_body]
fn compute_pairing_digits(passcode: u32, discriminator: u16) -> (r: String)
    ensures
        r@ == pairing_digits(passcode, discriminator),
{
    let verifier = VerifierData::new_with_pw(passcode, dummy_rand);
    let comm_data = CommissioningData { verifier, discriminator };
    compute_pairing_code(&comm_data).as_str().to_string()
}

/// `qrcode::QrCode::new` and its renderer for `qrcode::render::unicode::Dense1x2`: the
/// QR code of the text drawn in characters, or the text of the error where the text
/// does not fit a QR code.
#[verifier::external_body]
fn draw_qr(text: &str) -> (r: Result<String, String>)
    ensures
        match r {
            Ok(art) => qr_art_of(text@) == Ok::<Seq<char>, Seq<char>>(art@),
            Err(e) => qr_art_of(text@) == Err::<Seq<char>, Seq<char>>(e@),
        },
{
    match qrcode::QrCode::new(text) {
        Ok(code) => Ok(code.render::<qrcode::render::unicode::Dense1x2>().build()),
        Err(err) => Err(err.to_string()),
    }
}

/// The code that is typed in by hand, in groups of four, four and the rest, with a
/// hyphen between them. Digits that do not reach into the third group stay as they
/// are.
pub open spec fn pretty_code(digits: Seq<char>) -> Seq<char> {
    if digits.len() > 8 {
        digits.subrange(0, 4) + seq!['-'] + digits.subrange(4, 8) + seq!['-'] + digits.subrange(
            8,
            digits.len() as int,
        )
    } else {
        digits
    }
}

/// The code that is typed in by hand, in groups.
pub fn pretty_pairing_code(digits: &str) -> (r: String)
    ensures
        r@ == pretty_code(digits@),
{
    let chars = chars_of(digits);
    if chars.len() > 8 {
        let mut out = string_from_range(&chars, 0, 4);
        out.push('-');
        let middle = string_from_range(&chars, 4, 8);
        out.append(middle.as_str());
        out.push('-');
        let rest = string_from_range(&chars, 8, chars.len());
        out.append(rest.as_str());
        assert(out@ =~= pretty_code(digits@));
        out
    } else {
        let out = string_from_range(&chars, 0, chars.len());
        assert(out@ =~= digits@);
        out
    }
}

/// Pairing information as a plain value.
pub struct PairingInfoView {
    pub qr_text: Seq<char>,
    pub qr_unicode: Seq<char>,
    pub manual_code: Seq<char>,
    pub discriminator: u16,
}

impl View for PairingInfo {
    type V = PairingInfoView;

    open spec fn view(&self) -> PairingInfoView {
        PairingInfoView {
            qr_text: self.qr_text@,
            qr_unicode: self.qr_unicode@,
            manual_code: self.manual_code@,
            discriminator: self.discriminator,
        }
    }
}

/// The pairing information that the parts make up: the error of the QR text, else the
/// error of the drawing, else all of them together.
pub open spec fn pairing_from(
    qr_text: Result<Seq<char>, Seq<char>>,
    qr_art: Result<Seq<char>, Seq<char>>,
    digits: Seq<char>,
    discriminator: u16,
) -> Result<PairingInfoView, Seq<char>> {
    match qr_text {
        Err(e) => Err(e),
        Ok(text) => match qr_art {
            Err(e) => Err(e),
            Ok(art) => Ok(
                PairingInfoView {
                    qr_text: text,
                    qr_unicode: art,
                    manual_code: pretty_code(digits),
                    discriminator,
                },
            ),
        },
    }
}

/// A result of strings by their characters.
pub open spec fn text_result(r: Result<String, String>) -> Result<Seq<char>, Seq<char>> {
    match r {
        Ok(t) => Ok(t@),
        Err(e) => Err(e@),
    }
}

/// A pairing result as a plain value; every failure is a runtime error with its text.
pub open spec fn pairing_result(r: Result<PairingInfo, MatterError>) -> Option<
    Result<PairingInfoView, Seq<char>>,
> {
    match r {
        Ok(info) => Some(Ok(info@)),
        Err(MatterError::Runtime(text)) => Some(Err(text@)),
        Err(_) => None,
    }
}

/// Puts the pairing information together from its parts. The first part that failed
/// gives the error, as a runtime error with its text.
pub fn pairing_from_parts(
    qr_text: Result<String, String>,
    qr_art: Result<String, String>,
    digits: &str,
    discriminator: u16,
) -> (r: Result<PairingInfo, MatterError>)
    ensures
        pairing_result(r) == Some(
            pairing_from(text_result(qr_text), text_result(qr_art), digits@, discriminator),
        ),
{
    match qr_text {
        Err(e) => Err(MatterError::Runtime(e)),
        Ok(text) => match qr_art {
            Err(e) => Err(MatterError::Runtime(e)),
            Ok(art) => Ok(
                PairingInfo {
                    qr_text: text,
                    qr_unicode: art,
                    manual_code: pretty_pairing_code(digits),
                    discriminator,
                },
            ),
        },
    }
}

/// What a bridge tells of itself as a device.
pub open spec fn bridge_details(bridge_id: u128) -> DeviceDetailsView {
    DeviceDetailsView {
        vid: VENDOR_ID,
        pid: PRODUCT_ID,
        hw_ver: 1,
        sw_ver: 1,
        sw_ver_str: "1"@,
        serial_no: "hamh-"@ + uuid_text(bridge_id),
        device_name: "HAMH "@ + uuid_text(bridge_id),
    }
}

/// What a bridge tells of itself as a device.
pub fn details_of(bridge_id: u128) -> (r: DeviceDetails)
    ensures
        r@ == bridge_details(bridge_id),
{
    DeviceDetails {
        vid: VENDOR_ID,
        pid: PRODUCT_ID,
        hw_ver: 1,
        sw_ver: 1,
        sw_ver_str: "1".to_owned(),
        serial_no: serial_number(bridge_id),
        device_name: device_name(bridge_id),
    }
}

/// The pairing information of a bridge with the given passcode and discriminator.
pub open spec fn pairing_of(bridge_id: u128, passcode: u32, discriminator: u16) -> Result<
    PairingInfoView,
    Seq<char>,
> {
    let qr_text = qr_text_of(
        bridge_details(bridge_id),
        passcode,
        discriminator,
        QR_TEXT_BUFFER_LEN as nat,
    );
    let qr_art = match qr_text {
        Ok(text) => qr_art_of(text),
        Err(e) => Err(e),
    };
    pairing_from(qr_text, qr_art, pairing_digits(passcode, discriminator), discriminator)
}

/// The pairing information of a bridge. It depends on the bridge, the passcode and the
/// discriminator alone, and needs no running bridge.
pub fn pairing_info(bridge_id: u128, passcode: u32, discriminator: u16) -> (r: Result<
    PairingInfo,
    MatterError,
>)
    ensures
        pairing_result(r) == Some(pairing_of(bridge_id, passcode, discriminator)),
{
    let details = details_of(bridge_id);
    proof {
        lemma_uuid_text_ascii(bridge_id);
        reveal_strlit("hamh-");
        assert(details.serial_no@.len() == 41);
        assert(vstd::utf8::is_ascii_chars(details.serial_no@)) by {
            assert forall|i: int| 0 <= i < details.serial_no@.len() implies '\0'
                <= #[trigger] details.serial_no@[i] <= '\u{7f}' by {
                if i >= 5 {
                    assert(details.serial_no@[i] == uuid_text(bridge_id)[i - 5]);
                }
            }
        }
    }
    let qr_text = compute_qr_text(&details, passcode, discriminator, QR_TEXT_BUFFER_LEN);
    let qr_art = match &qr_text {
        Ok(text) => draw_qr(text.as_str()),
        Err(e) => Err(e.clone()),
    };
    let digits = compute_pairing_digits(passcode, discriminator);
    pairing_from_parts(qr_text, qr_art, digits.as_str(), discriminator)
}

/// Two answers for the same bridge, passcode and discriminator are the same.
pub proof fn lemma_pairing_info_deterministic(
    first: Result<PairingInfo, MatterError>,
    second: Result<PairingInfo, MatterError>,
    bridge_id: u128,
    passcode: u32,
    discriminator: u16,
)
    requires
        pairing_result(first) == Some(pairing_of(bridge_id, passcode, discriminator)),
        pairing_result(second) == Some(pairing_of(bridge_id, passcode, discriminator)),
    ensures
        pairing_result(first) == pairing_result(second),
        first is Ok <==> second is Ok,
        first is Ok ==> first->Ok_0@ == second->Ok_0@,
{
}

} // verus!
