use vstd::prelude::*;

verus! {

/// A known-malicious content hash with a human-readable title.
#[derive(Debug, Clone, PartialEq, Eq)]
pub struct Definition {
    pub title: String,
    pub hash: String,
}

/// The mathematical value of a [`Definition`].
pub struct DefinitionView {
    pub title: Seq<char>,
    pub hash: Seq<char>,
}

impl View for Definition {
    type V = DefinitionView;

    open spec fn view(&self) -> DefinitionView {
        DefinitionView { title: self.title@, hash: self.hash@ }
    }
}

/// The signature store as it is persisted: a list of definitions.
#[derive(Debug, Clone)]
pub struct Definitions {
    pub definitions: Vec<Definition>,
}

/// The view of each definition of a list, in order.
pub open spec fn definitions_view(defs: Seq<Definition>) -> Seq<DefinitionView> {
    defs.map_values(|d: Definition| d@)
}

/// The index of the first definition whose hash equals `hash`, if any.
pub open spec fn first_match(defs: Seq<DefinitionView>, hash: Seq<char>) -> Option<int> {
    if exists|k: int| 0 <= k < defs.len() && defs[k].hash == hash {
        Some(choose|k: int| 0 <= k < defs.len() && defs[k].hash == hash
            && forall|m: int| 0 <= m < k ==> defs[m].hash != hash)
    } else {
        None
    }
}

/// The definitions of a list hold no definition with the given hash before `k`.
pub open spec fn no_match_before(defs: Seq<DefinitionView>, hash: Seq<char>, k: int) -> bool {
    forall|m: int| 0 <= m < k ==> #[trigger] defs[m].hash != hash
}

/// A definition that is equal in value to `d`.
pub fn copy_definition(d: &Definition) -> (r: Definition)
    ensures
        r@ == d@,
{
    Definition { title: d.title.clone(), hash: d.hash.clone() }
}

/// Exact-hash lookup: the first definition, in stored order, whose hash equals
/// `hash`.
pub fn find_definition(defs: &Vec<Definition>, hash: &String) -> (r: Option<usize>)
    ensures
        match r {
            Some(k) => k < defs@.len() && defs@[k as int].hash@ == hash@
                && no_match_before(definitions_view(defs@), hash@, k as int),
            None => no_match_before(definitions_view(defs@), hash@, defs@.len() as int),
        },
        r matches Some(k) ==> first_match(definitions_view(defs@), hash@) == Some(k as int),
        r is None ==> first_match(definitions_view(defs@), hash@) is None,
{
    let ghost dv = definitions_view(defs@);
    let mut k: usize = 0;
    while k < defs.len()
        invariant
            k <= defs@.len(),
            dv == definitions_view(defs@),
            no_match_before(dv, hash@, k as int),
        decreases defs@.len() - k,
    {
        if defs[k].hash == *hash {
            proof {
                assert(dv[k as int].hash == hash@);
                let c = choose|c: int| 0 <= c < dv.len() && dv[c].hash == hash@
                    && forall|m: int| 0 <= m < c ==> dv[m].hash != hash@;
                assert(dv[c].hash == hash@);
                if c < k as int {
                    assert(dv[c].hash != hash@);
                }
                if c > k as int {
                    assert(dv[k as int].hash != hash@);
                }
            }
            return Some(k);
        }
        k = k + 1;
    }
    None
}

} // verus!
