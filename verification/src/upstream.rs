//! The upstream home-automation controller as the library sees it: the records it
//! serves, how they are joined into entity descriptors, and what a request to it
//! carries.

use vstd::prelude::*;

use crate::filter::{EntityDescriptor, EntityDescriptorView};
use crate::text::{
    ascii_lowercase, chars_of, clone_opt_string, is_ascii_alnum, opt_chars, str_eq,
    string_from_range, strip_leading, strip_trailing, trimmed_end, trimmed_start,
};

verus! {

#[verifier::external_type_specification]
#[verifier::external_body]
pub struct ExHttpError(reqwest::Error);

/// Why a call to the upstream controller failed.
#[derive(Debug)]
pub enum HaError {
    NotImplemented,
    Http(reqwest::Error),
    InvalidHeader,
}

/// The text that `reqwest::Error` prints for an error.
pub uninterp spec fn http_error_text(err: reqwest::Error) -> Seq<char>;

/// `Display` of `reqwest::Error`: the text that the error prints.
#[verifier::external_body]
fn http_error_message(err: &reqwest::Error) -> (r: String)
    ensures
        r@ == http_error_text(*err),
{
    err.to_string()
}

impl HaError {
    /// The message of the error.
    pub open spec fn message_spec(&self) -> Seq<char> {
        match self {
            HaError::NotImplemented => "not implemented"@,
            HaError::Http(err) => "http error: "@ + http_error_text(*err),
            HaError::InvalidHeader => "invalid header"@,
        }
    }

    /// The message of the error, as it is shown and logged.
    pub fn message(&self) -> (r: String)
        ensures
            r@ == self.message_spec(),
    {
        match self {
            HaError::NotImplemented => "not implemented".to_owned(),
            HaError::Http(err) => {
                let mut out = "http error: ".to_owned();
                let text = http_error_message(err);
                out.append(text.as_str());
                out
            },
            HaError::InvalidHeader => "invalid header".to_owned(),
        }
    }
}

/// Where the upstream controller is and the token that opens it.
#[derive(Debug, Clone)]
pub struct HomeAssistantClient {
    pub url: String,
    pub token: String,
}

/// The adapter that serves entity descriptors from one upstream controller.
#[derive(Debug, Clone)]
pub struct HassAdapter {
    pub client: HomeAssistantClient,
}

/// The state of one entity, as the controller reports it.
#[derive(Debug, Clone)]
pub struct HaEntityState {
    pub entity_id: String,
    pub state: String,
    pub attributes: serde_json::Value,
}

/// One entry of the controller's entity registry.
#[derive(Debug, Clone)]
pub struct HaEntityRegistryEntry {
    pub entity_id: String,
    pub platform: Option<String>,
    pub entity_category: Option<String>,
    pub area_id: Option<String>,
    pub labels: Option<Vec<String>>,
    pub device_id: Option<String>,
}

/// One entry of the controller's area registry.
#[derive(Debug, Clone)]
pub struct HaAreaRegistryEntry {
    pub area_id: String,
    pub name: String,
}

/// One entry of the controller's label registry.
#[derive(Debug, Clone)]
pub struct HaLabelRegistryEntry {
    pub label_id: String,
    pub name: String,
}

impl Default for HaEntityRegistryEntry {
    fn default() -> (r: Self)
        ensures
            r.entity_id@.len() == 0,
            r.platform is None,
            r.entity_category is None,
            r.area_id is None,
            r.labels is None,
            r.device_id is None,
    {
        HaEntityRegistryEntry {
            entity_id: String::new(),
            platform: None,
            entity_category: None,
            area_id: None,
            labels: None,
            device_id: None,
        }
    }
}

impl Default for HaAreaRegistryEntry {
    fn default() -> (r: Self)
        ensures
            r.area_id@.len() == 0,
            r.name@.len() == 0,
    {
        HaAreaRegistryEntry { area_id: String::new(), name: String::new() }
    }
}

impl Default for HaLabelRegistryEntry {
    fn default() -> (r: Self)
        ensures
            r.label_id@.len() == 0,
            r.name@.len() == 0,
    {
        HaLabelRegistryEntry { label_id: String::new(), name: String::new() }
    }
}

/// The path of the request that tests the connection.
pub const API_ROOT: &'static str = "/api/";

/// The path under which the controller serves the entity states.
pub const STATES_PATH: &'static str = "/api/states";

/// The path under which the controller serves the entity registry.
pub const ENTITY_REGISTRY_PATH: &'static str = "/api/config/entity_registry";

/// The path under which the controller serves the area registry.
pub const AREA_REGISTRY_PATH: &'static str = "/api/config/area_registry";

/// The path under which the controller serves the label registry.
pub const LABEL_REGISTRY_PATH: &'static str = "/api/config/label_registry";

/// Whether a character may stand in the value of an HTTP header: a tab, or any
/// character from the space on but DEL.
pub open spec fn is_header_char(c: char) -> bool {
    c == '\t' || (' ' <= c && c != '\x7f')
}

/// Whether a text may stand as the value of an HTTP header.
pub open spec fn is_header_text(s: Seq<char>) -> bool {
    forall|i: int| 0 <= i < s.len() ==> is_header_char(#[trigger] s[i])
}

/// `HeaderValue::from_str` of the `http` crate, which `reqwest` hands on: it accepts a
/// text exactly when each of its bytes is a tab or at least 32 and not 127. The bytes of
/// a character beyond ASCII are all above 127, so this is a condition on the characters.
#[verifier::external_body]
fn header_value_ok(value: &str) -> (r: bool)
    ensures
        r == is_header_text(value@),
{
    reqwest::header::HeaderValue::from_str(value).is_ok()
}

impl HomeAssistantClient {
    pub fn new(url: String, token: String) -> (r: Self)
        ensures
            r.url == url,
            r.token == token,
    {
        HomeAssistantClient { url, token }
    }

    /// The address of a request: the controller's address without the slashes at its
    /// end, followed by `path`.
    pub open spec fn endpoint_spec(&self, path: Seq<char>) -> Seq<char> {
        strip_trailing(self.url@, '/') + path
    }

    /// The address of the request for `path`.
    pub fn endpoint(&self, path: &str) -> (r: String)
        ensures
            r@ == self.endpoint_spec(path@),
    {
        let chars = chars_of(self.url.as_str());
        let end = trimmed_end(&chars, '/');
        let mut out = string_from_range(&chars, 0, end);
        assert(chars@.subrange(0, end as int) =~= chars@.take(end as int));
        out.append(path);
        out
    }

    /// The value of the `Authorization` header.
    pub open spec fn bearer_spec(&self) -> Seq<char> {
        "Bearer "@ + self.token@
    }

    /// The value of the `Authorization` header that every request carries: `Bearer` and
    /// the token. A token that cannot stand in a header gives `InvalidHeader`.
    pub fn auth_header(&self) -> (r: Result<String, HaError>)
        ensures
            is_header_text(self.bearer_spec()) ==> r is Ok && r->Ok_0@ == self.bearer_spec(),
            !is_header_text(self.bearer_spec()) ==> r is Err && r->Err_0 is InvalidHeader,
    {
        let mut value = "Bearer ".to_owned();
        value.append(self.token.as_str());
        if header_value_ok(value.as_str()) {
            Ok(value)
        } else {
            Err(HaError::InvalidHeader)
        }
    }
}

/// What the answer to the connection test means: any status from 200 to 299 is a
/// success, any other a failure.
pub fn connect_result(status: u16) -> (r: Result<(), HaError>)
    ensures
        200 <= status < 300 ==> r is Ok,
        !(200 <= status < 300) ==> r is Err && r->Err_0 is NotImplemented,
{
    if 200 <= status && status < 300 {
        Ok(())
    } else {
        Err(HaError::NotImplemented)
    }
}

/// Whether the answer to a registry request says that the controller has no such
/// registry; it is then taken as empty.
pub fn registry_missing(status: u16) -> (r: bool)
    ensures
        r == (status == 404),
{
    status == 404
}

/// What subscribing to the entities of a bridge gives: there is no such subscription.
pub fn subscribe_entities(bridge_id: u128) -> (r: Result<(), HaError>)
    ensures
        r is Err,
        r->Err_0 is NotImplemented,
{
    Err(HaError::NotImplemented)
}

/// The character that stands for `c` in a slug: a letter or digit in lower case, an
/// underscore for anything else.
pub open spec fn slug_char(c: char) -> char {
    if is_ascii_alnum(c) {
        ascii_lowercase(c)
    } else {
        '_'
    }
}

/// `s` with each character replaced by the one that stands for it in a slug.
pub open spec fn slug_chars(s: Seq<char>) -> Seq<char> {
    Seq::new(s.len(), |i: int| slug_char(s[i]))
}

/// `s` with every run of underscores cut down to one.
pub open spec fn collapse_underscores(s: Seq<char>) -> Seq<char>
    decreases s.len(),
{
    if s.len() == 0 {
        Seq::empty()
    } else if s.last() == '_' && s.len() >= 2 && s[s.len() - 2] == '_' {
        collapse_underscores(s.drop_last())
    } else {
        collapse_underscores(s.drop_last()).push(s.last())
    }
}

/// The slug of a name: lower-case ASCII letters and digits, each run of other
/// characters as one underscore, and no underscore at the start or the end.
pub open spec fn slug(s: Seq<char>) -> Seq<char> {
    strip_leading(strip_trailing(collapse_underscores(slug_chars(s)), '_'), '_')
}

/// The slug of a name.
pub fn slugify(input: &str) -> (r: String)
    ensures
        r@ == slug(input@),
{
    let chars = chars_of(input);
    let ghost raw = slug_chars(chars@);
    let mut out: Vec<char> = Vec::new();
    let mut prev_underscore = false;
    let mut i: usize = 0;
    assert(raw.take(0) =~= Seq::empty());
    while i < chars.len()
        invariant
            i <= chars.len(),
            raw == slug_chars(chars@),
            out@ == collapse_underscores(raw.take(i as int)),
            prev_underscore == (i > 0 && raw[i - 1] == '_'),
        decreases chars.len() - i,
    {
        let ch = chars[i];
        let mapped = if ch.is_ascii_alphanumeric() {
            ch.to_ascii_lowercase()
        } else {
            '_'
        };
        proof {
            assert(mapped == raw[i as int]);
            assert(raw.take(i + 1).drop_last() =~= raw.take(i as int));
            assert(raw.take(i + 1).last() == raw[i as int]);
            if i > 0 {
                assert(raw.take(i + 1)[i - 1] == raw[i - 1]);
            }
        }
        if mapped == '_' {
            if !prev_underscore {
                out.push('_');
            }
            prev_underscore = true;
        } else {
            out.push(mapped);
            prev_underscore = false;
        }
        i += 1;
    }
    assert(raw.take(i as int) =~= raw);
    let end = trimmed_end(&out, '_');
    let start = trimmed_start(&out, end, '_');
    string_from_range(&out, start, end)
}

/// Whether a character may stand in a slug: a lower-case ASCII letter, a digit or an
/// underscore.
pub open spec fn is_slug_char(c: char) -> bool {
    ('a' <= c && c <= 'z') || ('0' <= c && c <= '9') || c == '_'
}

/// Whether a text has the shape of a slug: only lower-case ASCII letters, digits and
/// underscores, no underscore at its start or its end, and no two underscores in a
/// row.
pub open spec fn is_slug(s: Seq<char>) -> bool {
    &&& forall|i: int| 0 <= i < s.len() ==> is_slug_char(#[trigger] s[i])
    &&& s.len() > 0 ==> s[0] != '_' && s.last() != '_'
    &&& forall|i: int| 0 <= i < s.len() - 1 ==> !(#[trigger] s[i] == '_' && s[i + 1] == '_')
}

proof fn lemma_collapsed_shape(s: Seq<char>)
    requires
        forall|i: int| 0 <= i < s.len() ==> is_slug_char(#[trigger] s[i]),
    ensures
        forall|i: int|
            0 <= i < collapse_underscores(s).len() ==> is_slug_char(
                #[trigger] collapse_underscores(s)[i],
            ),
        forall|i: int|
            0 <= i < collapse_underscores(s).len() - 1 ==> !(#[trigger] collapse_underscores(s)[i]
                == '_' && collapse_underscores(s)[i + 1] == '_'),
        s.len() > 0 ==> collapse_underscores(s).len() > 0 && collapse_underscores(s).last()
            == s.last(),
    decreases s.len(),
{
    if s.len() > 0 {
        let front = s.drop_last();
        lemma_collapsed_shape(front);
        let rest = collapse_underscores(front);
        let out = collapse_underscores(s);
        if !(s.last() == '_' && s.len() >= 2 && s[s.len() - 2] == '_') {
            assert forall|i: int| 0 <= i < out.len() - 1 implies !(#[trigger] out[i] == '_'
                && out[i + 1] == '_') by {
                if i == rest.len() - 1 {
                    assert(rest.last() == front.last());
                    assert(front.last() == s[s.len() - 2]);
                } else {
                    assert(out[i] == rest[i] && out[i + 1] == rest[i + 1]);
                }
            }
            assert forall|i: int| 0 <= i < out.len() implies is_slug_char(#[trigger] out[i]) by {
                if i < rest.len() {
                    assert(out[i] == rest[i]);
                } else {
                    assert(out[i] == s[s.len() - 1]);
                }
            }
        } else {
            assert(front.last() == s[s.len() - 2]);
        }
    }
}

proof fn lemma_strip_trailing_is_prefix(s: Seq<char>, c: char)
    ensures
        strip_trailing(s, c).len() <= s.len(),
        strip_trailing(s, c) == s.take(strip_trailing(s, c).len() as int),
        strip_trailing(s, c).len() > 0 ==> strip_trailing(s, c).last() != c,
    decreases s.len(),
{
    if s.len() > 0 && s.last() == c {
        lemma_strip_trailing_is_prefix(s.drop_last(), c);
        let k = strip_trailing(s.drop_last(), c).len() as int;
        assert(s.drop_last().take(k) =~= s.take(k));
    } else {
        assert(s.take(s.len() as int) =~= s);
    }
}

proof fn lemma_strip_leading_is_suffix(s: Seq<char>, c: char)
    ensures
        strip_leading(s, c).len() <= s.len(),
        strip_leading(s, c) == s.skip(s.len() - strip_leading(s, c).len()),
        strip_leading(s, c).len() > 0 ==> strip_leading(s, c)[0] != c,
    decreases s.len(),
{
    if s.len() > 0 && s[0] == c {
        lemma_strip_leading_is_suffix(s.drop_first(), c);
        let k = s.drop_first().len() - strip_leading(s.drop_first(), c).len();
        assert(s.drop_first().skip(k) =~= s.skip(k + 1));
    } else {
        assert(s.skip(0) =~= s);
    }
}

/// The slug of any name has the shape of a slug.
pub proof fn lemma_slug_shape(name: Seq<char>)
    ensures
        is_slug(slug(name)),
{
    let raw = slug_chars(name);
    lemma_collapsed_shape(raw);
    let collapsed = collapse_underscores(raw);
    lemma_strip_trailing_is_prefix(collapsed, '_');
    let front = strip_trailing(collapsed, '_');
    lemma_strip_leading_is_suffix(front, '_');
    let out = slug(name);
    let k = front.len() - out.len();
    assert forall|i: int| 0 <= i < out.len() implies is_slug_char(#[trigger] out[i]) by {
        assert(out[i] == front[i + k]);
        assert(front[i + k] == collapsed[i + k]);
    }
    assert forall|i: int| 0 <= i < out.len() - 1 implies !(#[trigger] out[i] == '_' && out[i + 1]
        == '_') by {
        assert(out[i] == collapsed[i + k]);
        assert(out[i + 1] == collapsed[i + k + 1]);
    }
    if out.len() > 0 {
        assert(out.last() == front[front.len() - 1]);
    }
}

/// How many characters of an entity id come before its first dot.
pub open spec fn domain_len(id: Seq<char>) -> nat
    decreases id.len(),
{
    if id.len() == 0 || id[0] == '.' {
        0
    } else {
        1 + domain_len(id.drop_first())
    }
}

/// The domain of an entity: what its id holds before the first dot, or all of it where
/// it has none.
pub open spec fn domain_of(id: Seq<char>) -> Seq<char> {
    id.take(domain_len(id) as int)
}

/// The domain of an entity id.
pub fn entity_domain(entity_id: &str) -> (r: String)
    ensures
        r@ == domain_of(entity_id@),
{
    let chars = chars_of(entity_id);
    let mut i: usize = 0;
    assert(chars@.skip(0) =~= chars@);
    while i < chars.len() && chars[i] != '.'
        invariant
            i <= chars.len(),
            domain_len(chars@) == i + domain_len(chars@.skip(i as int)),
        decreases chars.len() - i,
    {
        assert(chars@.skip(i as int).drop_first() =~= chars@.skip(i + 1));
        i += 1;
    }
    assert(chars@.subrange(0, i as int) =~= chars@.take(i as int));
    string_from_range(&chars, 0, i)
}

/// The registry entry of an entity: the last one listed under its id.
pub open spec fn registry_entry(
    registry: Seq<HaEntityRegistryEntry>,
    entity_id: Seq<char>,
) -> Option<HaEntityRegistryEntry>
    decreases registry.len(),
{
    if registry.len() == 0 {
        None
    } else if registry.last().entity_id@ == entity_id {
        Some(registry.last())
    } else {
        registry_entry(registry.drop_last(), entity_id)
    }
}

/// The name of an area: that of the last entry listed under its id.
pub open spec fn area_name(areas: Seq<HaAreaRegistryEntry>, area_id: Seq<char>) -> Option<
    Seq<char>,
>
    decreases areas.len(),
{
    if areas.len() == 0 {
        None
    } else if areas.last().area_id@ == area_id {
        Some(areas.last().name@)
    } else {
        area_name(areas.drop_last(), area_id)
    }
}

/// The name of a label: that of the last entry listed under its id.
pub open spec fn label_name(labels: Seq<HaLabelRegistryEntry>, label_id: Seq<char>) -> Option<
    Seq<char>,
>
    decreases labels.len(),
{
    if labels.len() == 0 {
        None
    } else if labels.last().label_id@ == label_id {
        Some(labels.last().name@)
    } else {
        label_name(labels.drop_last(), label_id)
    }
}

/// The slugs of the labels that `ids` name, in order; an id without an entry is left
/// out.
pub open spec fn label_slugs(labels: Seq<HaLabelRegistryEntry>, ids: Seq<String>) -> Seq<
    Seq<char>,
>
    decreases ids.len(),
{
    if ids.len() == 0 {
        Seq::empty()
    } else {
        let rest = label_slugs(labels, ids.drop_last());
        match label_name(labels, ids.last()@) {
            Some(name) => rest.push(slug(name)),
            None => rest,
        }
    }
}

/// The area of an entity: the slug of the area that its registry entry names, where
/// that area is known.
pub open spec fn area_of(reg: Option<HaEntityRegistryEntry>, areas: Seq<HaAreaRegistryEntry>)
    -> Option<Seq<char>> {
    match reg {
        Some(r) => match r.area_id {
            Some(id) => match area_name(areas, id@) {
                Some(name) => Some(slug(name)),
                None => None,
            },
            None => None,
        },
        None => None,
    }
}

/// The labels of an entity: the slugs of the labels that its registry entry names.
pub open spec fn labels_of(reg: Option<HaEntityRegistryEntry>, labels: Seq<HaLabelRegistryEntry>)
    -> Seq<Seq<char>> {
    match reg {
        Some(r) => match r.labels {
            Some(ids) => label_slugs(labels, ids@),
            None => Seq::empty(),
        },
        None => Seq::empty(),
    }
}

/// The descriptor of an entity: its state joined with its registry entry, its area and
/// its labels.
pub open spec fn descriptor_for(
    state: HaEntityState,
    registry: Seq<HaEntityRegistryEntry>,
    areas: Seq<HaAreaRegistryEntry>,
    labels: Seq<HaLabelRegistryEntry>,
) -> EntityDescriptorView {
    let reg = registry_entry(registry, state.entity_id@);
    EntityDescriptorView {
        entity_id: state.entity_id@,
        domain: domain_of(state.entity_id@),
        platform: match reg {
            Some(r) => opt_chars(r.platform),
            None => None,
        },
        entity_category: match reg {
            Some(r) => opt_chars(r.entity_category),
            None => None,
        },
        area: area_of(reg, areas),
        labels: labels_of(reg, labels),
        device_id: match reg {
            Some(r) => opt_chars(r.device_id),
            None => None,
        },
        attributes: state.attributes,
    }
}

/// The descriptors of the entities whose states are given, in their order.
pub open spec fn descriptors_for(
    states: Seq<HaEntityState>,
    registry: Seq<HaEntityRegistryEntry>,
    areas: Seq<HaAreaRegistryEntry>,
    labels: Seq<HaLabelRegistryEntry>,
) -> Seq<EntityDescriptorView> {
    Seq::new(states.len(), |i: int| descriptor_for(states[i], registry, areas, labels))
}

/// The descriptors of a list as plain values, in order.
pub open spec fn descriptor_views(list: Seq<EntityDescriptor>) -> Seq<EntityDescriptorView> {
    Seq::new(list.len(), |i: int| list[i]@)
}

/// The registry entry of an entity, where there is one.
pub fn find_registry_entry<'a>(registry: &'a Vec<HaEntityRegistryEntry>, entity_id: &str) -> (r:
    Option<&'a HaEntityRegistryEntry>)
    ensures
        match r {
            Some(e) => registry_entry(registry@, entity_id@) == Some(*e),
            None => registry_entry(registry@, entity_id@) is None,
        },
{
    let mut i: usize = registry.len();
    assert(registry@.take(i as int) =~= registry@);
    while i > 0
        invariant
            i <= registry.len(),
            registry_entry(registry@, entity_id@) == registry_entry(
                registry@.take(i as int),
                entity_id@,
            ),
        decreases i,
    {
        assert(registry@.take(i as int).drop_last() =~= registry@.take(i - 1));
        if str_eq(registry[i - 1].entity_id.as_str(), entity_id) {
            return Some(&registry[i - 1]);
        }
        i -= 1;
    }
    None
}

/// The slug of the name of an area, where the area is known.
pub fn find_area_slug(areas: &Vec<HaAreaRegistryEntry>, area_id: &str) -> (r: Option<String>)
    ensures
        match r {
            Some(s) => area_name(areas@, area_id@) is Some && s@ == slug(
                area_name(areas@, area_id@)->0,
            ),
            None => area_name(areas@, area_id@) is None,
        },
{
    let mut i: usize = areas.len();
    assert(areas@.take(i as int) =~= areas@);
    while i > 0
        invariant
            i <= areas.len(),
            area_name(areas@, area_id@) == area_name(areas@.take(i as int), area_id@),
        decreases i,
    {
        assert(areas@.take(i as int).drop_last() =~= areas@.take(i - 1));
        if str_eq(areas[i - 1].area_id.as_str(), area_id) {
            return Some(slugify(areas[i - 1].name.as_str()));
        }
        i -= 1;
    }
    None
}

/// The slug of the name of a label, where the label is known.
pub fn find_label_slug(labels: &Vec<HaLabelRegistryEntry>, label_id: &str) -> (r: Option<String>)
    ensures
        match r {
            Some(s) => label_name(labels@, label_id@) is Some && s@ == slug(
                label_name(labels@, label_id@)->0,
            ),
            None => label_name(labels@, label_id@) is None,
        },
{
    let mut i: usize = labels.len();
    assert(labels@.take(i as int) =~= labels@);
    while i > 0
        invariant
            i <= labels.len(),
            label_name(labels@, label_id@) == label_name(labels@.take(i as int), label_id@),
        decreases i,
    {
        assert(labels@.take(i as int).drop_last() =~= labels@.take(i - 1));
        if str_eq(labels[i - 1].label_id.as_str(), label_id) {
            return Some(slugify(labels[i - 1].name.as_str()));
        }
        i -= 1;
    }
    None
}

/// The slugs of the labels that `ids` name.
fn resolve_labels(labels: &Vec<HaLabelRegistryEntry>, ids: &Vec<String>) -> (r: Vec<String>)
    ensures
        crate::text::string_views(r@) == label_slugs(labels@, ids@),
{
    let mut out: Vec<String> = Vec::new();
    let mut i: usize = 0;
    assert(ids@.take(0) =~= Seq::empty());
    assert(crate::text::string_views(out@) =~= Seq::empty());
    while i < ids.len()
        invariant
            i <= ids.len(),
            crate::text::string_views(out@) == label_slugs(labels@, ids@.take(i as int)),
        decreases ids.len() - i,
    {
        assert(ids@.take(i + 1).drop_last() =~= ids@.take(i as int));
        let ghost before = out@;
        match find_label_slug(labels, ids[i].as_str()) {
            Some(s) => {
                out.push(s);
                assert(crate::text::string_views(out@) =~= crate::text::string_views(before).push(
                    s@,
                ));
            },
            None => {},
        }
        i += 1;
    }
    assert(ids@.take(i as int) =~= ids@);
    out
}

/// Joins the entity states with the entity, area and label registries into one
/// descriptor for each state, in the order of the states.
///
/// Where a registry lists an id more than once, the last entry counts. An entity
/// without a registry entry has no platform, category, area, device and labels; an area
/// or a label that its registry does not list is left out.
pub fn list_entity_descriptors(
    states: Vec<HaEntityState>,
    registry: &Vec<HaEntityRegistryEntry>,
    areas: &Vec<HaAreaRegistryEntry>,
    labels: &Vec<HaLabelRegistryEntry>,
) -> (descriptors: Vec<EntityDescriptor>)
    ensures
        descriptor_views(descriptors@) == descriptors_for(states@, registry@, areas@, labels@),
{
    let ghost all = states@;
    let mut descriptors: Vec<EntityDescriptor> = Vec::new();
    for state in it: states
        invariant
            it.seq() == all,
            descriptors.len() == it.index(),
            forall|m: int|
                0 <= m < descriptors.len() ==> (#[trigger] descriptors[m])@ == descriptor_for(
                    all[m],
                    registry@,
                    areas@,
                    labels@,
                ),
    {
        let domain = entity_domain(state.entity_id.as_str());
        let reg = find_registry_entry(registry, state.entity_id.as_str());
        let ghost reg_spec = registry_entry(registry@, state.entity_id@);
        let platform = match reg {
            Some(r) => clone_opt_string(&r.platform),
            None => None,
        };
        let entity_category = match reg {
            Some(r) => clone_opt_string(&r.entity_category),
            None => None,
        };
        let device_id = match reg {
            Some(r) => clone_opt_string(&r.device_id),
            None => None,
        };
        let area = match reg {
            Some(r) => match &r.area_id {
                Some(id) => find_area_slug(areas, id.as_str()),
                None => None,
            },
            None => None,
        };
        let entity_labels = match reg {
            Some(r) => match &r.labels {
                Some(ids) => resolve_labels(labels, ids),
                None => Vec::new(),
            },
            None => Vec::new(),
        };
        proof {
            assert(opt_chars(area) == area_of(reg_spec, areas@));
            assert(crate::text::string_views(entity_labels@) =~= labels_of(reg_spec, labels@));
        }
        let descriptor = EntityDescriptor {
            entity_id: state.entity_id,
            domain,
            platform,
            entity_category,
            area,
            labels: entity_labels,
            device_id,
            attributes: state.attributes,
        };
        descriptors.push(descriptor);
    }
    assert(descriptor_views(descriptors@) =~= descriptors_for(all, registry@, areas@, labels@));
    descriptors
}

} // verus!
