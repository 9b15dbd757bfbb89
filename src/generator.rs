use vstd::prelude::*;

use crate::function::{same_function, string_views, Function};
use crate::random::{pick_index, sample_indices};
use crate::text::{hex_text, lemma_hex_text_injective};
use crate::ty::{catalog, Ty, TYPE_COUNT};

verus! {

/// Number of entries in the lifetime-label pool.
pub const LIFETIME_POOL_SIZE: usize = 8;

/// Upper bound (exclusive) of the number of lifetime labels a generated
/// function asks for.
pub const MAX_LIFETIME_REQUEST: usize = 10;

/// The pool's long label, stressing identifier handling.
pub const LONG_LABEL: &'static str = "aaaaaaaaaaaaaaaaaaaaaaaaaaaaaaaaaaaaaaaaaaaaaaaaaaaaaaaaaaaaaaaaaaaaaaaaaaaaaaaaaaaaaaaaaaaaaaaaaaaaaaaaaaaaaaaaaaaaaaaaaaaaaaaaaaaaaaaaaaaaaaaaaaaaaaaaaaaaaaaaaaaaaaaa";

/// The body every generated function gets.
pub const PLACEHOLDER_BODY: &'static str = "todo!()";

/// The lifetime labels, including boundary cases: single letters, an
/// underscore, a bare sigil, a very long token and a digit-leading token.
pub open spec fn lifetime_pool() -> Seq<Seq<char>> {
    seq!["a"@, "b"@, "c"@, "d"@, "_"@, "&"@, LONG_LABEL@, "12a"@]
}

/// The pool's labels are pairwise different.
pub proof fn lemma_lifetime_pool_distinct()
    ensures
        lifetime_pool().no_duplicates(),
{
    reveal_strlit("a");
    reveal_strlit("b");
    reveal_strlit("c");
    reveal_strlit("d");
    reveal_strlit("_");
    reveal_strlit("&");
    reveal_strlit("12a");
    reveal_strlit("aaaaaaaaaaaaaaaaaaaaaaaaaaaaaaaaaaaaaaaaaaaaaaaaaaaaaaaaaaaaaaaaaaaaaaaaaaaaaaaaaaaaaaaaaaaaaaaaaaaaaaaaaaaaaaaaaaaaaaaaaaaaaaaaaaaaaaaaaaaaaaaaaaaaaaaaaaaaaaaaaaaaaaaa");
    let p = lifetime_pool();
    assert forall|i: int, j: int| 0 <= i < p.len() && 0 <= j < p.len() && i != j implies p[i]
        != p[j] by {
        if p[i].len() == p[j].len() {
            assert(p[i][0] != p[j][0]);
        }
    }
}

fn lifetime_label(i: usize) -> (r: &'static str)
    requires
        i < LIFETIME_POOL_SIZE,
    ensures
        r@ == lifetime_pool()[i as int],
{
    match i {
        0 => "a",
        1 => "b",
        2 => "c",
        3 => "d",
        4 => "_",
        5 => "&",
        6 => LONG_LABEL,
        _ => "12a",
    }
}

/// Draws up to `n` distinct labels from the pool without replacement, in
/// the order they were drawn; at most the whole pool.
pub fn sample_lifetimes(n: usize) -> (r: Vec<String>)
    ensures
        r@.len() == if n < LIFETIME_POOL_SIZE { n } else { LIFETIME_POOL_SIZE },
        string_views(r@).no_duplicates(),
        forall|i: int| 0 <= i < r@.len() ==> lifetime_pool().contains(#[trigger] r@[i]@),
{
    let idx = sample_indices(LIFETIME_POOL_SIZE, n);
    let mut r: Vec<String> = Vec::new();
    let mut j: usize = 0;
    while j < idx.len()
        invariant
            j <= idx@.len(),
            r@.len() == j,
            forall|i: int| 0 <= i < idx@.len() ==> idx@[i] < LIFETIME_POOL_SIZE,
            forall|i: int| 0 <= i < j ==> r@[i]@ == lifetime_pool()[idx@[i] as int],
        decreases idx@.len() - j,
    {
        r.push(lifetime_label(idx[j]).to_string());
        j = j + 1;
    }
    proof {
        lemma_lifetime_pool_distinct();
        let v = string_views(r@);
        assert forall|a: int, b: int| 0 <= a < v.len() && 0 <= b < v.len() && a != b implies v[a]
            != v[b] by {
            assert(idx@[a] != idx@[b]);
        }
        assert forall|i: int| 0 <= i < r@.len() implies lifetime_pool().contains(
            #[trigger] r@[i]@,
        ) by {
            assert(lifetime_pool()[idx@[i] as int] == r@[i]@);
        }
    }
    r
}

/// Picks one type of the catalog at random.
pub fn pick_ty() -> (t: Ty)
    ensures
        catalog().contains(t),
{
    let i = pick_index(TYPE_COUNT);
    let t = Ty::from_index(i);
    assert(catalog()[i as int] == t);
    t
}

/// A generation session: a monotonic counter and the functions generated so
/// far, the one at position `i` named after `i`.
pub struct FunctionGenerator {
    id: usize,
    functions: Vec<Function>,
}

impl FunctionGenerator {
    /// The counter value the next generated function is named after.
    pub closed spec fn next_id(&self) -> nat {
        self.id as nat
    }

    /// The functions generated so far, oldest first.
    pub closed spec fn history(&self) -> Seq<Function> {
        self.functions@
    }

    /// The history holds one function per counter value so far, each named
    /// after its position.
    pub open spec fn wf(&self) -> bool {
        &&& self.history().len() == self.next_id()
        &&& forall|i: int|
            0 <= i < self.history().len() ==> #[trigger] self.history()[i].name@ == hex_text(
                i as nat,
            )
    }

    /// A fresh session: counter at zero, nothing generated.
    pub fn new() -> (g: Self)
        ensures
            g.wf(),
            g.next_id() == 0,
            g.history().len() == 0,
    {
        Self { id: 0, functions: Vec::new() }
    }

    /// Number of functions generated so far.
    pub fn generated(&self) -> (n: usize)
        ensures
            n == self.next_id(),
    {
        self.id
    }

    /// Generates one function: a random return type, the counter value in
    /// hexadecimal as its name, between zero and nine requested lifetime
    /// labels (so at most the whole pool), no keywords, no arguments and the
    /// placeholder body. The function is also kept in the session history.
    pub fn gen_fn(&mut self) -> (f: Function)
        requires
            old(self).wf(),
            old(self).next_id() < usize::MAX,
        ensures
            final(self).wf(),
            final(self).next_id() == old(self).next_id() + 1,
            final(self).history().len() == old(self).history().len() + 1,
            final(self).history().subrange(0, old(self).history().len() as int) == old(
                self,
            ).history(),
            same_function(final(self).history().last(), f),
            f.name@ == hex_text(old(self).next_id()),
            f.keyword@.len() == 0,
            f.args@.len() == 0,
            f.body@ == PLACEHOLDER_BODY@,
            catalog().contains(f.return_ty),
            f.lifetimes@.len() <= LIFETIME_POOL_SIZE,
            string_views(f.lifetimes@).no_duplicates(),
            forall|i: int|
                0 <= i < f.lifetimes@.len() ==> lifetime_pool().contains(#[trigger] f.lifetimes@[i]@),
    {
        let ty = pick_ty();
        let name = crate::text::hex_string(self.id);
        self.id = self.id + 1;
        let count = pick_index(MAX_LIFETIME_REQUEST);
        let fun = Function {
            keyword: Vec::new(),
            lifetimes: sample_lifetimes(count),
            name,
            return_ty: ty,
            args: Vec::new(),
            body: PLACEHOLDER_BODY.to_string(),
        };
        let kept = fun.duplicate();
        let ghost before = self.functions@;
        self.functions.push(kept);
        assert(self.functions@.subrange(0, before.len() as int) =~= before);
        fun
    }
}

/// Within one session every generated function has its own name, and a
/// later function never reuses an earlier one's.
pub proof fn lemma_session_names_unique(g: FunctionGenerator, i: int, j: int)
    requires
        g.wf(),
        0 <= i < g.history().len(),
        0 <= j < g.history().len(),
        i != j,
    ensures
        g.history()[i].name@ != g.history()[j].name@,
{
    if g.history()[i].name@ == g.history()[j].name@ {
        lemma_hex_text_injective(i as nat, j as nat);
    }
}

/// Shape of a generated aggregate. No operation generates one yet.
pub struct Struct {
    /// Lifetimes by index; unlike [`Function`], whose labels are strings.
    pub lifetimes: Vec<i32>,
    pub fields: Vec<StructField>,
    pub vis: String,
    pub tuplestruct: bool,
}

/// Shape of one field of a generated aggregate.
pub struct StructField {
    pub name: String,
    pub lifetimes: String,
    pub ty: Ty,
    pub vis: String,
}

} // verus!
