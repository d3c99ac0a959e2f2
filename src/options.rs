//! Initialization options: a server's defaults merged, key by key, with the
//! overrides that the user's settings give.
use vstd::prelude::*;

verus! {

/// One top-level key of an initialization payload, with its value written as
/// JSON text.
#[derive(Clone, Debug)]
pub struct OptionEntry {
    pub key: String,
    pub value: String,
}

/// An initialization payload: top-level keys, each at most once, with their
/// values.
#[derive(Clone, Debug)]
pub struct InitOptions {
    pub entries: Vec<OptionEntry>,
}

/// The payload that a list of entries describes, a later entry replacing an
/// earlier one of the same key.
pub open spec fn entries_map(s: Seq<OptionEntry>) -> Map<Seq<char>, Seq<char>>
    decreases s.len(),
{
    if s.len() == 0 {
        Map::empty()
    } else {
        entries_map(s.drop_last()).insert(s.last().key@, s.last().value@)
    }
}

/// No key occurs twice.
pub open spec fn keys_unique(s: Seq<OptionEntry>) -> bool {
    forall|i: int, j: int|
        0 <= i < s.len() && 0 <= j < s.len() && i != j ==> #[trigger] s[i].key@ != #[trigger] s[j].key@
}

impl InitOptions {
    /// The payload as a map from key to value.
    pub open spec fn view_map(&self) -> Map<Seq<char>, Seq<char>> {
        entries_map(self.entries@)
    }

    /// Each key occurs once.
    pub open spec fn well_formed(&self) -> bool {
        keys_unique(self.entries@)
    }
}

/// Replacing the entry of a key, where keys are unique, sets that key's value.
proof fn lemma_replace_entry(s: Seq<OptionEntry>, i: int, e: OptionEntry)
    requires
        keys_unique(s),
        0 <= i < s.len(),
        s[i].key@ == e.key@,
    ensures
        entries_map(s.update(i, e)) == entries_map(s).insert(e.key@, e.value@),
    decreases s.len(),
{
    let t = s.update(i, e);
    if i == s.len() - 1 {
        assert(t.drop_last() =~= s.drop_last());
        assert(entries_map(t) =~= entries_map(s).insert(e.key@, e.value@));
    } else {
        assert(t.drop_last() =~= s.drop_last().update(i, e));
        lemma_replace_entry(s.drop_last(), i, e);
        assert(s.last().key@ != e.key@);
        assert(entries_map(t) =~= entries_map(s).insert(e.key@, e.value@));
    }
}

/// Sets `e.key` to `e.value` in `entries`: replaces the entry of that key, or
/// appends `e` where there is none.
fn upsert(entries: &mut Vec<OptionEntry>, e: OptionEntry)
    requires
        keys_unique(old(entries)@),
    ensures
        keys_unique(final(entries)@),
        entries_map(final(entries)@) == entries_map(old(entries)@).insert(e.key@, e.value@),
{
    let mut i: usize = 0;
    while i < entries.len()
        invariant
            i <= entries@.len(),
            entries@ == old(entries)@,
            keys_unique(entries@),
            forall|j: int| 0 <= j < i ==> #[trigger] entries@[j].key@ != e.key@,
        decreases entries@.len() - i,
    {
        if entries[i].key == e.key {
            proof {
                lemma_replace_entry(entries@, i as int, e);
            }
            entries.set(i, e);
            assert(keys_unique(entries@)) by {
                assert forall|a: int, b: int|
                    0 <= a < entries@.len() && 0 <= b < entries@.len() && a != b implies #[trigger] entries@[a].key@
                    != #[trigger] entries@[b].key@ by {
                    assert(old(entries)@[a].key@ != old(entries)@[b].key@);
                }
            }
            return;
        }
        i = i + 1;
    }
    proof {
        assert(entries@.push(e).drop_last() =~= entries@);
    }
    entries.push(e);
}

/// Sets, in order, each entry of `src` in `acc`.
fn upsert_all(acc: &mut Vec<OptionEntry>, src: &Vec<OptionEntry>)
    requires
        keys_unique(old(acc)@),
    ensures
        keys_unique(final(acc)@),
        entries_map(final(acc)@) == entries_map(old(acc)@ + src@),
{
    let ghost start = acc@;
    let mut i: usize = 0;
    while i < src.len()
        invariant
            i <= src@.len(),
            keys_unique(acc@),
            entries_map(acc@) == entries_map(start + src@.subrange(0, i as int)),
        decreases src@.len() - i,
    {
        let e = OptionEntry { key: src[i].key.clone(), value: src[i].value.clone() };
        proof {
            let before = start + src@.subrange(0, i as int);
            let after = start + src@.subrange(0, i + 1);
            assert(after.drop_last() =~= before);
            assert(after.last() == src@[i as int]);
        }
        upsert(acc, e);
        i = i + 1;
    }
    assert(src@.subrange(0, src@.len() as int) =~= src@);
}

/// Merges `defaults` with `overrides` key by key: an override replaces the
/// default of its key, and of two entries of one key the later one counts.
pub fn merge_options(defaults: &Vec<OptionEntry>, overrides: &Vec<OptionEntry>) -> (r: InitOptions)
    ensures
        r.well_formed(),
        r.view_map() == entries_map(defaults@ + overrides@),
{
    let mut acc: Vec<OptionEntry> = Vec::new();
    upsert_all(&mut acc, defaults);
    assert(Seq::<OptionEntry>::empty() + defaults@ =~= defaults@);
    let ghost mid = acc@;
    upsert_all(&mut acc, overrides);
    proof {
        lemma_map_of_concat(mid, defaults@, overrides@);
    }
    InitOptions { entries: acc }
}

/// Two lists that describe one payload still do so when the same entries
/// follow each.
proof fn lemma_map_of_concat(a: Seq<OptionEntry>, b: Seq<OptionEntry>, c: Seq<OptionEntry>)
    requires
        entries_map(a) == entries_map(b),
    ensures
        entries_map(a + c) == entries_map(b + c),
    decreases c.len(),
{
    if c.len() == 0 {
        assert(a + c =~= a);
        assert(b + c =~= b);
    } else {
        lemma_map_of_concat(a, b, c.drop_last());
        assert((a + c).drop_last() =~= a + c.drop_last());
        assert((b + c).drop_last() =~= b + c.drop_last());
    }
}

/// The initialization options sent at handshake: `defaults` merged with the
/// overrides that the settings lookup found. A lookup that failed, or found no
/// block for the server, leaves the defaults as they are; it never fails.
pub fn initialization_options(
    defaults: &Vec<OptionEntry>,
    lookup: &Result<Option<Vec<OptionEntry>>, String>,
) -> (r: InitOptions)
    ensures
        r.well_formed(),
        lookup matches Ok(Some(o)) ==> r.view_map() == entries_map(defaults@ + o@),
        !(lookup matches Ok(Some(_))) ==> r.view_map() == entries_map(defaults@),
{
    match lookup {
        Ok(Some(o)) => merge_options(defaults, o),
        _ => {
            let none: Vec<OptionEntry> = Vec::new();
            let r = merge_options(defaults, &none);
            assert(defaults@ + none@ =~= defaults@);
            r
        },
    }
}

} // verus!
