//! Include and exclude rules over entity descriptors.

use vstd::prelude::*;

use crate::models::{BridgeFilter, EntityFilter, FilterKind};
use crate::text::{chars_of, opt_chars, opt_str_is, str_eq, string_views};

verus! {

/// One upstream entity, as the filter and the device mapping see it.
#[derive(Debug, Clone)]
pub struct EntityDescriptor {
    pub entity_id: String,
    pub domain: String,
    pub platform: Option<String>,
    pub entity_category: Option<String>,
    pub area: Option<String>,
    pub labels: Vec<String>,
    pub device_id: Option<String>,
    pub attributes: serde_json::Value,
}

/// An entity descriptor as a plain value: every string by its characters.
pub struct EntityDescriptorView {
    pub entity_id: Seq<char>,
    pub domain: Seq<char>,
    pub platform: Option<Seq<char>>,
    pub entity_category: Option<Seq<char>>,
    pub area: Option<Seq<char>>,
    pub labels: Seq<Seq<char>>,
    pub device_id: Option<Seq<char>>,
    pub attributes: serde_json::Value,
}

impl View for EntityDescriptor {
    type V = EntityDescriptorView;

    open spec fn view(&self) -> EntityDescriptorView {
        EntityDescriptorView {
            entity_id: self.entity_id@,
            domain: self.domain@,
            platform: opt_chars(self.platform),
            entity_category: opt_chars(self.entity_category),
            area: opt_chars(self.area),
            labels: string_views(self.labels@),
            device_id: opt_chars(self.device_id),
            attributes: self.attributes,
        }
    }
}

/// Whether the first `i` characters of the pattern `p` match the first `j` characters
/// of `t`: `*` stands for any run of characters, the empty one too, `?` for exactly one
/// character, and every other character for itself.
pub open spec fn prefix_matches(p: Seq<char>, t: Seq<char>, i: nat, j: nat) -> bool
    decreases i, j,
{
    if i == 0 {
        j == 0
    } else if p[i - 1] == '*' {
        prefix_matches(p, t, (i - 1) as nat, j) || (j > 0 && prefix_matches(
            p,
            t,
            i,
            (j - 1) as nat,
        ))
    } else if j == 0 {
        false
    } else {
        (p[i - 1] == '?' || p[i - 1] == t[j - 1]) && prefix_matches(
            p,
            t,
            (i - 1) as nat,
            (j - 1) as nat,
        )
    }
}

/// Whether the whole of `t` matches the whole pattern `p`.
pub open spec fn wildcard_matches(p: Seq<char>, t: Seq<char>) -> bool {
    prefix_matches(p, t, p.len(), t.len())
}

/// Whether `value` is one of `labels`.
pub open spec fn has_label(labels: Seq<String>, value: Seq<char>) -> bool {
    exists|i: int| 0 <= i < labels.len() && (#[trigger] labels[i])@ == value
}

/// Whether an optional field is present and holds `value`.
pub open spec fn field_is(field: Option<String>, value: Seq<char>) -> bool {
    field is Some && field->0@ == value
}

/// Whether one rule matches an entity: a pattern is matched against the entity id, a
/// label against each of the labels, and every other kind is compared with the field it
/// names, which never matches while it is missing.
pub open spec fn rule_matches(rule: EntityFilter, entity: EntityDescriptor) -> bool {
    match rule.kind {
        FilterKind::Pattern => wildcard_matches(rule.value@, entity.entity_id@),
        FilterKind::Domain => entity.domain@ == rule.value@,
        FilterKind::Platform => field_is(entity.platform, rule.value@),
        FilterKind::EntityCategory => field_is(entity.entity_category, rule.value@),
        FilterKind::Area => field_is(entity.area, rule.value@),
        FilterKind::Label => has_label(entity.labels@, rule.value@),
        FilterKind::EntityId => entity.entity_id@ == rule.value@,
        FilterKind::DeviceId => field_is(entity.device_id, rule.value@),
    }
}

/// Whether any of `rules` matches the entity.
pub open spec fn any_rule_matches(rules: Seq<EntityFilter>, entity: EntityDescriptor) -> bool {
    exists|i: int| 0 <= i < rules.len() && rule_matches(#[trigger] rules[i], entity)
}

/// Whether the include rules let the entity in: they do when there are none, or when
/// one of them matches.
pub open spec fn include_ok(filter: BridgeFilter, entity: EntityDescriptor) -> bool {
    filter.includes.len() == 0 || any_rule_matches(filter.includes@, entity)
}

/// Whether an exclude rule matches the entity.
pub open spec fn exclude_hit(filter: BridgeFilter, entity: EntityDescriptor) -> bool {
    any_rule_matches(filter.exclude@, entity)
}

/// Matches `text` against `pattern`, in which `*` stands for any run of characters and
/// `?` for exactly one.
///
/// Works row by row over the pattern, keeping for every prefix of the text whether the
/// pattern read so far matches it.
pub fn wildcard_match(pattern: &str, text: &str) -> (r: bool)
    ensures
        r == wildcard_matches(pattern@, text@),
{
    let p = chars_of(pattern);
    let t = chars_of(text);
    let n = t.len();
    // `head` is the entry for the empty prefix; `row[j]` is the entry for the first
    // `j + 1` characters of the text.
    let mut head = true;
    let mut row: Vec<bool> = Vec::new();
    let mut k: usize = 0;
    while k < n
        invariant
            k <= n,
            n == t.len(),
            row.len() == k,
            forall|j: int| 0 <= j < k ==> row[j] == prefix_matches(p@, t@, 0, (j + 1) as nat),
        decreases n - k,
    {
        row.push(false);
        k += 1;
    }
    let mut i: usize = 0;
    while i < p.len()
        invariant
            i <= p.len(),
            n == t.len(),
            row.len() == n,
            head == prefix_matches(p@, t@, i as nat, 0),
            forall|j: int|
                0 <= j < n ==> row[j] == prefix_matches(p@, t@, i as nat, (j + 1) as nat),
        decreases p.len() - i,
    {
        let ch = p[i];
        let mut next: Vec<bool> = Vec::new();
        let next_head = ch == '*' && head;
        let mut any = next_head;
        let mut j: usize = 0;
        while j < n
            invariant
                j <= n,
                i < p.len(),
                n == t.len(),
                row.len() == n,
                ch == p[i as int],
                next.len() == j,
                head == prefix_matches(p@, t@, i as nat, 0),
                next_head == prefix_matches(p@, t@, (i + 1) as nat, 0),
                ch == '*' ==> any == prefix_matches(p@, t@, (i + 1) as nat, j as nat),
                forall|m: int|
                    0 <= m < n ==> row[m] == prefix_matches(p@, t@, i as nat, (m + 1) as nat),
                forall|m: int|
                    0 <= m < j ==> next[m] == prefix_matches(
                        p@,
                        t@,
                        (i + 1) as nat,
                        (m + 1) as nat,
                    ),
            decreases n - j,
        {
            let before = if j == 0 {
                head
            } else {
                row[j - 1]
            };
            let value = if ch == '*' {
                any = any || row[j];
                any
            } else if ch == '?' {
                before
            } else {
                before && t[j] == ch
            };
            next.push(value);
            j += 1;
        }
        head = next_head;
        row = next;
        i += 1;
    }
    if n == 0 {
        head
    } else {
        row[n - 1]
    }
}

/// Whether one rule matches an entity.
pub fn matches_rule(rule: &EntityFilter, entity: &EntityDescriptor) -> (r: bool)
    ensures
        r == rule_matches(*rule, *entity),
{
    match rule.kind {
        FilterKind::Pattern => wildcard_match(rule.value.as_str(), entity.entity_id.as_str()),
        FilterKind::Domain => str_eq(entity.domain.as_str(), rule.value.as_str()),
        FilterKind::Platform => opt_str_is(&entity.platform, rule.value.as_str()),
        FilterKind::EntityCategory => opt_str_is(&entity.entity_category, rule.value.as_str()),
        FilterKind::Area => opt_str_is(&entity.area, rule.value.as_str()),
        FilterKind::Label => {
            let mut found = false;
            let mut i: usize = 0;
            while i < entity.labels.len()
                invariant
                    i <= entity.labels.len(),
                    found == has_label(entity.labels@.take(i as int), rule.value@),
                decreases entity.labels.len() - i,
            {
                let hit = str_eq(entity.labels[i].as_str(), rule.value.as_str());
                proof {
                    let before = entity.labels@.take(i as int);
                    let after = entity.labels@.take(i + 1);
                    if hit {
                        assert(after[i as int]@ == rule.value@);
                    } else if has_label(after, rule.value@) {
                        let w = choose|w: int|
                            0 <= w < after.len() && (#[trigger] after[w])@ == rule.value@;
                        assert(before[w]@ == rule.value@);
                    }
                    if found {
                        let w = choose|w: int|
                            0 <= w < before.len() && (#[trigger] before[w])@ == rule.value@;
                        assert(after[w]@ == rule.value@);
                    }
                }
                found = found || hit;
                i += 1;
            }
            assert(entity.labels@.take(i as int) == entity.labels@);
            found
        },
        FilterKind::EntityId => str_eq(entity.entity_id.as_str(), rule.value.as_str()),
        FilterKind::DeviceId => opt_str_is(&entity.device_id, rule.value.as_str()),
    }
}

/// Whether any rule of the list matches the entity.
fn any_rule(rules: &Vec<EntityFilter>, entity: &EntityDescriptor) -> (r: bool)
    ensures
        r == any_rule_matches(rules@, *entity),
{
    let mut i: usize = 0;
    while i < rules.len()
        invariant
            i <= rules.len(),
            forall|m: int| 0 <= m < i ==> !rule_matches(#[trigger] rules[m], *entity),
        decreases rules.len() - i,
    {
        if matches_rule(&rules[i], entity) {
            return true;
        }
        i += 1;
    }
    false
}

/// Whether a bridge's filter lets an entity through: the include rules must let it in
/// and no exclude rule may match it.
pub fn matches_filter(filter: &BridgeFilter, entity: &EntityDescriptor) -> (r: bool)
    ensures
        r == (include_ok(*filter, *entity) && !exclude_hit(*filter, *entity)),
{
    let included = if filter.includes.len() == 0 {
        true
    } else {
        any_rule(&filter.includes, entity)
    };
    let excluded = any_rule(&filter.exclude, entity);
    included && !excluded
}

/// A filter without rules lets every entity through.
pub proof fn lemma_empty_filter_accepts(filter: BridgeFilter, entity: EntityDescriptor)
    requires
        filter.is_empty(),
    ensures
        include_ok(filter, entity),
        !exclude_hit(filter, entity),
{
}

/// A filter without include rules lets in every entity.
pub proof fn lemma_include_defaults_to_true(filter: BridgeFilter, entity: EntityDescriptor)
    requires
        filter.includes.len() == 0,
    ensures
        include_ok(filter, entity),
{
}

/// The pattern `*` matches every text.
pub proof fn lemma_star_matches_all(t: Seq<char>)
    ensures
        wildcard_matches("*"@, t),
{
    reveal_strlit("*");
    lemma_star_prefix("*"@, t, t.len());
}

proof fn lemma_star_prefix(p: Seq<char>, t: Seq<char>, j: nat)
    requires
        p.len() == 1,
        p[0] == '*',
    ensures
        prefix_matches(p, t, 1, j),
    decreases j,
{
    if j > 0 {
        lemma_star_prefix(p, t, (j - 1) as nat);
    } else {
        assert(prefix_matches(p, t, 0, 0));
    }
}

/// The empty pattern matches the empty text and no other.
pub proof fn lemma_empty_pattern(t: Seq<char>)
    ensures
        wildcard_matches(""@, t) == (t.len() == 0),
{
    reveal_strlit("");
}

} // verus!
