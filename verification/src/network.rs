//! Which network interface the mDNS responder of a bridge announces itself on.

use vstd::prelude::*;

use crate::text::{ascii_lowercase, chars_of, str_eq};

verus! {

/// The name that a bridge announces itself under.
pub const MDNS_HOSTNAME: &'static str = "hamh";

/// The address of one entry of the system's interface list.
#[derive(Debug, Clone, Copy, PartialEq, Eq, Structural)]
pub enum InterfaceIp {
    /// An IPv4 address, as its 32 bits.
    V4(u32),
    /// An IPv6 address, as its 128 bits.
    V6(u128),
    /// No address, or one of another family.
    Other,
}

/// One entry of the system's interface list: an interface and one of its addresses.
#[derive(Debug, Clone)]
pub struct InterfaceAddress {
    pub name: String,
    pub up: bool,
    pub broadcast: bool,
    pub loopback: bool,
    pub point_to_point: bool,
    pub ip: InterfaceIp,
}

/// The interface that was chosen, with one address of each family.
#[derive(Debug, Clone)]
pub struct MdnsInterface {
    pub name: String,
    pub ipv4: u32,
    pub ipv6: u128,
}

/// Whether an interface can carry mDNS: it is up and broadcasts, and is neither a
/// loopback nor a point-to-point link.
pub open spec fn is_usable(a: InterfaceAddress) -> bool {
    a.up && a.broadcast && !a.loopback && !a.point_to_point
}

/// The first IPv4 address that a usable entry lists for the interface `name`.
pub open spec fn first_ipv4(list: Seq<InterfaceAddress>, name: Seq<char>) -> Option<u32>
    decreases list.len(),
{
    if list.len() == 0 {
        None
    } else if is_usable(list[0]) && list[0].name@ == name && list[0].ip is V4 {
        Some(list[0].ip->V4_0)
    } else {
        first_ipv4(list.drop_first(), name)
    }
}

/// What is chosen among the entries `rest` of the list `all`: the first usable entry
/// with an IPv6 address whose interface has an IPv4 address as well.
pub open spec fn chosen_from(rest: Seq<InterfaceAddress>, all: Seq<InterfaceAddress>) -> Option<
    (Seq<char>, u32, u128),
>
    decreases rest.len(),
{
    if rest.len() == 0 {
        None
    } else if is_usable(rest[0]) && rest[0].ip is V6 && first_ipv4(all, rest[0].name@) is Some {
        Some((rest[0].name@, first_ipv4(all, rest[0].name@)->0, rest[0].ip->V6_0))
    } else {
        chosen_from(rest.drop_first(), all)
    }
}

/// Whether an interface can carry mDNS.
pub fn usable(a: &InterfaceAddress) -> (r: bool)
    ensures
        r == is_usable(*a),
{
    a.up && a.broadcast && !a.loopback && !a.point_to_point
}

/// The first IPv4 address that a usable entry lists for the interface `name`.
pub fn find_ipv4(list: &Vec<InterfaceAddress>, name: &str) -> (r: Option<u32>)
    ensures
        r == first_ipv4(list@, name@),
{
    let mut i: usize = 0;
    assert(list@.skip(0) =~= list@);
    while i < list.len()
        invariant
            i <= list.len(),
            first_ipv4(list@, name@) == first_ipv4(list@.skip(i as int), name@),
        decreases list.len() - i,
    {
        assert(list@.skip(i as int).drop_first() =~= list@.skip(i + 1));
        if usable(&list[i]) && str_eq(list[i].name.as_str(), name) {
            match list[i].ip {
                InterfaceIp::V4(ip) => {
                    return Some(ip);
                },
                _ => {},
            }
        }
        i += 1;
    }
    None
}

/// Chooses the interface for mDNS from the system's interface list: the first usable
/// entry with an IPv6 address whose interface lists an IPv4 address too, together with
/// the first such IPv4 address. `None` where the list has no such interface.
pub fn select_mdns_interface(list: &Vec<InterfaceAddress>) -> (r: Option<MdnsInterface>)
    ensures
        match r {
            Some(chosen) => chosen_from(list@, list@) == Some(
                (chosen.name@, chosen.ipv4, chosen.ipv6),
            ),
            None => chosen_from(list@, list@) is None,
        },
{
    let mut i: usize = 0;
    assert(list@.skip(0) =~= list@);
    while i < list.len()
        invariant
            i <= list.len(),
            chosen_from(list@, list@) == chosen_from(list@.skip(i as int), list@),
        decreases list.len() - i,
    {
        assert(list@.skip(i as int).drop_first() =~= list@.skip(i + 1));
        if usable(&list[i]) {
            match list[i].ip {
                InterfaceIp::V6(ipv6) => {
                    match find_ipv4(list, list[i].name.as_str()) {
                        Some(ipv4) => {
                            return Some(MdnsInterface { name: list[i].name.clone(), ipv4, ipv6 });
                        },
                        None => {},
                    }
                },
                _ => {},
            }
        }
        i += 1;
    }
    None
}

/// The name of the library of the Bonjour SDK that the system-wide responder needs.
pub const BONJOUR_LIBRARY: &'static str = "dns_sd.dll";

/// The directories in which the library of the Bonjour SDK is looked for, in order:
/// the one that is set, where one is, and then the places where the SDK installs it.
pub fn bonjour_candidates(sdk_dir: Option<String>) -> (r: Vec<String>)
    ensures
        r@.len() == if sdk_dir is Some {
            5int
        } else {
            4int
        },
        sdk_dir is Some ==> r@[0] == sdk_dir->0,
        ({
            let n = r@.len() - 4;
            &&& r@[n]@ == "C:\\Program Files\\Bonjour SDK\\lib\\x64"@
            &&& r@[n + 1]@ == "C:\\Program Files (x86)\\Bonjour SDK\\lib\\x64"@
            &&& r@[n + 2]@ == "C:\\Program Files\\Bonjour SDK\\lib"@
            &&& r@[n + 3]@ == "C:\\Program Files (x86)\\Bonjour SDK\\lib"@
        }),
{
    let mut list: Vec<String> = Vec::new();
    match sdk_dir {
        Some(dir) => {
            list.push(dir);
        },
        None => {},
    }
    list.push("C:\\Program Files\\Bonjour SDK\\lib\\x64".to_owned());
    list.push("C:\\Program Files (x86)\\Bonjour SDK\\lib\\x64".to_owned());
    list.push("C:\\Program Files\\Bonjour SDK\\lib".to_owned());
    list.push("C:\\Program Files (x86)\\Bonjour SDK\\lib".to_owned());
    list
}

/// Whether two texts are the same but for the case of their ASCII letters.
pub open spec fn same_ignoring_case(a: Seq<char>, b: Seq<char>) -> bool {
    a.len() == b.len() && forall|i: int|
        0 <= i < a.len() ==> ascii_lowercase(#[trigger] a[i]) == ascii_lowercase(b[i])
}

/// Whether `path[from..to]` is one of the pieces that the semicolons cut `path` into.
pub open spec fn is_piece(path: Seq<char>, from: int, to: int) -> bool {
    &&& 0 <= from <= to <= path.len()
    &&& from == 0 || path[from - 1] == ';'
    &&& to == path.len() || path[to] == ';'
    &&& forall|k: int| from <= k < to ==> path[k] != ';'
}

/// Whether a search path lists a directory, whatever the case of its ASCII letters.
pub open spec fn lists_dir(path: Seq<char>, dir: Seq<char>) -> bool {
    exists|from: int, to: int| #[trigger]
        is_piece(path, from, to) && same_ignoring_case(path.subrange(from, to), dir)
}

/// Whether `v[from..to]` is `dir` but for the case of the ASCII letters.
fn piece_is(v: &Vec<char>, from: usize, to: usize, dir: &Vec<char>) -> (r: bool)
    requires
        from <= to <= v.len(),
    ensures
        r == same_ignoring_case(v@.subrange(from as int, to as int), dir@),
{
    if to - from != dir.len() {
        return false;
    }
    let mut i: usize = 0;
    while i < dir.len()
        invariant
            i <= dir.len(),
            from <= to <= v.len(),
            to - from == dir.len(),
            forall|m: int|
                0 <= m < i ==> ascii_lowercase(
                    #[trigger] v@.subrange(from as int, to as int)[m],
                ) == ascii_lowercase(dir@[m]),
        decreases dir.len() - i,
    {
        let a = v[from + i];
        let b = dir[i];
        assert(v@.subrange(from as int, to as int)[i as int] == a);
        if a.to_ascii_lowercase() != b.to_ascii_lowercase() {
            return false;
        }
        i += 1;
    }
    true
}

/// The search path with a directory put in front of it, after a semicolon; `None`
/// where the path lists the directory already.
pub fn path_with_dir(current: &str, dir: &str) -> (r: Option<String>)
    ensures
        match r {
            Some(path) => !lists_dir(current@, dir@) && path@ == dir@ + seq![';'] + current@,
            None => lists_dir(current@, dir@),
        },
{
    let path = chars_of(current);
    let wanted = chars_of(dir);
    let mut start: usize = 0;
    loop
        invariant
            start <= path.len(),
            path@ == current@,
            wanted@ == dir@,
            start == 0 || path[start - 1] == ';',
            forall|from: int, to: int|
                from < start && #[trigger] is_piece(path@, from, to) ==> !same_ignoring_case(
                    path@.subrange(from, to),
                    dir@,
                ),
        decreases path.len() - start,
    {
        let mut end: usize = start;
        while end < path.len() && path[end] != ';'
            invariant
                start <= end <= path.len(),
                forall|k: int| start <= k < end ==> path[k] != ';',
            decreases path.len() - end,
        {
            end += 1;
        }
        assert(is_piece(path@, start as int, end as int));
        if piece_is(&path, start, end, &wanted) {
            return None;
        }
        assert forall|from: int, to: int|
            from < end + 1 && #[trigger] is_piece(path@, from, to) implies !same_ignoring_case(
            path@.subrange(from, to),
            dir@,
        ) by {
            if from >= start {
                if from > start {
                    assert(path[from - 1] == ';');
                }
                assert(from == start);
                if to < end {
                    assert(path[to] == ';');
                }
                if to > end {
                    assert(path[end as int] != ';');
                }
                assert(to == end);
            }
        }
        if end == path.len() {
            assert(!lists_dir(current@, dir@)) by {
                if lists_dir(current@, dir@) {
                    let (from, to) = choose|from: int, to: int| #[trigger]
                        is_piece(path@, from, to) && same_ignoring_case(
                            path@.subrange(from, to),
                            dir@,
                        );
                    assert(from < end + 1);
                }
            }
            let mut out = dir.to_owned();
            out.push(';');
            out.append(current);
            return Some(out);
        }
        start = end + 1;
    }
}

} // verus!
