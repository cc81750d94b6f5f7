//! Finding records by identifier: the first record whose id matches, as
//! `iter().find(|x| x.id == id)` returns it.
use vstd::prelude::*;
use crate::domain::{Bus, HardwareBinding, MacroDefinition, Node, ParameterValue, PendingAction, Port, Route, SceneDefinition, VariationDefinition};

verus! {

/// Records that carry a string identifier.
pub trait HasId {
    spec fn id_view(&self) -> Seq<char>;

    fn id_ref(&self) -> (r: &String)
        ensures
            r@ == self.id_view(),
    ;
}

/// Some record in `s` has identifier `id`.
pub open spec fn has_id<T: HasId>(s: Seq<T>, id: Seq<char>) -> bool {
    exists|i: int| 0 <= i < s.len() && (#[trigger] s[i]).id_view() == id
}

/// `i` is the position of the first record with identifier `id`.
pub open spec fn is_first_id<T: HasId>(s: Seq<T>, id: Seq<char>, i: int) -> bool {
    &&& 0 <= i < s.len()
    &&& s[i].id_view() == id
    &&& forall|j: int| 0 <= j < i ==> (#[trigger] s[j]).id_view() != id
}

/// The position of the first record with identifier `id` (meaningful when
/// `has_id(s, id)`).
pub open spec fn first_id<T: HasId>(s: Seq<T>, id: Seq<char>) -> int {
    choose|i: int| is_first_id(s, id, i)
}

/// The first record with identifier `id`.
pub open spec fn find_id<T: HasId>(s: Seq<T>, id: Seq<char>) -> T {
    s[first_id(s, id)]
}

pub proof fn lemma_first_id_unique<T: HasId>(s: Seq<T>, id: Seq<char>, i: int)
    requires
        is_first_id(s, id, i),
    ensures
        first_id(s, id) == i,
        has_id(s, id),
{
    let k = first_id(s, id);
    assert(is_first_id(s, id, k));
    if k < i {
        assert(s[k].id_view() != id);
    } else if i < k {
        assert(s[i].id_view() != id);
    }
}

proof fn lemma_first_from<T: HasId>(s: Seq<T>, id: Seq<char>, k: int, w: int)
    requires
        0 <= k <= w < s.len(),
        s[w].id_view() == id,
        forall|j: int| 0 <= j < k ==> (#[trigger] s[j]).id_view() != id,
    ensures
        is_first_id(s, id, first_id(s, id)),
    decreases w - k,
{
    if s[k].id_view() == id {
        lemma_first_id_unique(s, id, k);
    } else {
        lemma_first_from(s, id, k + 1, w);
    }
}

/// When some record has identifier `id`, `first_id` is the first of them.
pub proof fn lemma_first_id_exists<T: HasId>(s: Seq<T>, id: Seq<char>)
    requires
        has_id(s, id),
    ensures
        is_first_id(s, id, first_id(s, id)),
{
    let w = choose|i: int| 0 <= i < s.len() && (#[trigger] s[i]).id_view() == id;
    lemma_first_from(s, id, 0, w);
}

/// Position of the first record with identifier `id`, if any.
pub fn find_by_id<T: HasId>(v: &Vec<T>, id: &String) -> (r: Option<usize>)
    ensures
        match r {
            Some(i) => is_first_id(v@, id@, i as int) && first_id(v@, id@) == i,
            None => !has_id(v@, id@),
        },
        r is Some <==> has_id(v@, id@),
{
    let mut i: usize = 0;
    while i < v.len()
        invariant
            i <= v.len(),
            forall|j: int| 0 <= j < i ==> (#[trigger] v@[j]).id_view() != id@,
        decreases v.len() - i,
    {
        if v[i].id_ref().eq(id) {
            proof {
                lemma_first_id_unique(v@, id@, i as int);
            }
            return Some(i);
        }
        i = i + 1;
    }
    None
}

/// Whether some record has identifier `id`.
pub fn contains_id<T: HasId>(v: &Vec<T>, id: &String) -> (r: bool)
    ensures
        r == has_id(v@, id@),
{
    find_by_id(v, id).is_some()
}

/// `x` occurs among the strings of `s`.
pub open spec fn contains_text(s: Seq<String>, x: Seq<char>) -> bool {
    exists|j: int| 0 <= j < s.len() && (#[trigger] s[j])@ == x
}

/// Whether `x` occurs among the strings of `v` (`v.contains(x)`).
pub fn contains_string(v: &Vec<String>, x: &String) -> (r: bool)
    ensures
        r == contains_text(v@, x@),
{
    let mut i: usize = 0;
    while i < v.len()
        invariant
            i <= v.len(),
            forall|j: int| 0 <= j < i ==> (#[trigger] v@[j])@ != x@,
        decreases v.len() - i,
    {
        if v[i].eq(x) {
            return true;
        }
        i = i + 1;
    }
    false
}

impl HasId for Node {
    open spec fn id_view(&self) -> Seq<char> {
        self.id@
    }

    fn id_ref(&self) -> (r: &String) {
        &self.id
    }
}

impl HasId for Port {
    open spec fn id_view(&self) -> Seq<char> {
        self.id@
    }

    fn id_ref(&self) -> (r: &String) {
        &self.id
    }
}

impl HasId for ParameterValue {
    open spec fn id_view(&self) -> Seq<char> {
        self.id@
    }

    fn id_ref(&self) -> (r: &String) {
        &self.id
    }
}

impl HasId for Route {
    open spec fn id_view(&self) -> Seq<char> {
        self.id@
    }

    fn id_ref(&self) -> (r: &String) {
        &self.id
    }
}

impl HasId for Bus {
    open spec fn id_view(&self) -> Seq<char> {
        self.id@
    }

    fn id_ref(&self) -> (r: &String) {
        &self.id
    }
}

impl HasId for MacroDefinition {
    open spec fn id_view(&self) -> Seq<char> {
        self.id@
    }

    fn id_ref(&self) -> (r: &String) {
        &self.id
    }
}

impl HasId for SceneDefinition {
    open spec fn id_view(&self) -> Seq<char> {
        self.id@
    }

    fn id_ref(&self) -> (r: &String) {
        &self.id
    }
}

impl HasId for VariationDefinition {
    open spec fn id_view(&self) -> Seq<char> {
        self.id@
    }

    fn id_ref(&self) -> (r: &String) {
        &self.id
    }
}

impl HasId for PendingAction {
    open spec fn id_view(&self) -> Seq<char> {
        self.id@
    }

    fn id_ref(&self) -> (r: &String) {
        &self.id
    }
}

impl HasId for HardwareBinding {
    open spec fn id_view(&self) -> Seq<char> {
        self.id@
    }

    fn id_ref(&self) -> (r: &String) {
        &self.id
    }
}

} // verus!
