//! A schema compiler: turns declarations of (kind, key type, targets) into
//! closed sets of kinds and edges with their lookups, refusing a schema with
//! a target that is never declared or with two edges of one name. Each
//! compiled schema stands alone, so small schemas can be built side by side.
use vstd::prelude::*;
use vstd::string::StringSliceAdditionalSpecFns;
use vstd::utf8::encode_utf8;

verus! {

broadcast use vstd::utf8::encode_utf8_decode_utf8;

/// The key type a declared kind carries.
#[derive(Clone, Copy, Debug, PartialEq, Eq, Hash, Structural)]
pub enum KeyType {
    /// A singleton kind; it has no human-enterable identifier.
    Unit,
    /// A 32-bit number, written in decimal.
    Number,
}

/// A key of a kind of a compiled schema.
#[derive(Clone, Copy, Debug, PartialEq, Eq, Hash, Structural)]
pub enum KeyValue {
    Unit,
    Number(u32),
}

/// A target of a declaration: the edge's label and the kind it leads to.
/// The label is the target kind's name unless the edge is relabelled.
#[derive(Clone, Debug, PartialEq, Eq)]
pub struct TargetDecl {
    pub label: String,
    pub target: String,
}

/// The declaration of one kind.
#[derive(Clone, Debug, PartialEq, Eq)]
pub struct KindDecl {
    pub name: String,
    pub key: KeyType,
    pub targets: Vec<TargetDecl>,
}

/// A compiled edge: its name, and the indices of its source and target kinds.
#[derive(Clone, Debug, PartialEq, Eq)]
pub struct CompiledEdge {
    pub name: String,
    pub source: usize,
    pub target: usize,
}

/// A compiled schema. Kind 0 is `Root`, the traversal seed.
#[derive(Clone, Debug, PartialEq, Eq)]
pub struct Schema {
    pub kind_names: Vec<String>,
    pub key_types: Vec<KeyType>,
    pub edges: Vec<CompiledEdge>,
}

/// A node of a compiled schema.
#[derive(Clone, Copy, Debug, PartialEq, Eq, Hash, Structural)]
pub struct SchemaNode {
    pub kind: usize,
    pub key: KeyValue,
}

/// Why a schema was refused.
#[derive(Clone, Debug, PartialEq, Eq)]
pub enum CompileError {
    /// The first declaration is not `Root`.
    MissingRoot,
    /// Two declarations share this name.
    DuplicateKind(String),
    /// An edge leads to this name, which no declaration has.
    OrphanTarget(String),
    /// Two edges share this name.
    DuplicateEdge(String),
}

/// Why an identifier was refused.
#[derive(Clone, Copy, Debug, PartialEq, Eq, Hash, Structural)]
pub enum KeyParseError {
    /// The kind has no human-enterable identifier.
    Unsupported(usize),
    /// The text is not an identifier of the kind.
    Malformed(usize),
}

/// The edges declaration `i` lists: source index, name, target name.
pub open spec fn edges_of(i: int, d: KindDecl) -> Seq<(int, Seq<char>, Seq<char>)> {
    Seq::new(
        d.targets@.len(),
        |j: int| (i, d.name@ + "To"@ + d.targets@[j].label@, d.targets@[j].target@),
    )
}

/// The edges the first `n` declarations list, in order.
pub open spec fn declared(decls: Seq<KindDecl>, n: nat) -> Seq<(int, Seq<char>, Seq<char>)>
    decreases n,
{
    if n == 0 {
        Seq::empty()
    } else {
        declared(decls, (n - 1) as nat) + edges_of(n - 1, decls[n - 1])
    }
}

pub open spec fn all_declared(decls: Seq<KindDecl>) -> Seq<(int, Seq<char>, Seq<char>)> {
    declared(decls, decls.len())
}

pub open spec fn rooted(decls: Seq<KindDecl>) -> bool {
    decls.len() > 0 && decls[0].name@ == "Root"@
}

pub open spec fn kinds_unique(decls: Seq<KindDecl>) -> bool {
    forall|i: int, j: int| 0 <= i < j < decls.len() ==> decls[i].name@ != decls[j].name@
}

pub open spec fn is_declared(decls: Seq<KindDecl>, name: Seq<char>) -> bool {
    exists|k: int| 0 <= k < decls.len() && decls[k].name@ == name
}

pub open spec fn no_orphans(decls: Seq<KindDecl>) -> bool {
    forall|e: int| 0 <= e < all_declared(decls).len() ==> is_declared(decls, all_declared(decls)[e].2)
}

pub open spec fn edges_unique(decls: Seq<KindDecl>) -> bool {
    forall|a: int, b: int|
        0 <= a < b < all_declared(decls).len() ==> all_declared(decls)[a].1 != all_declared(
            decls,
        )[b].1
}

/// A schema compiles exactly when it starts at `Root`, names each kind once,
/// leads every edge to a declared kind and names each edge once.
pub open spec fn valid_schema(decls: Seq<KindDecl>) -> bool {
    &&& rooted(decls)
    &&& kinds_unique(decls)
    &&& no_orphans(decls)
    &&& edges_unique(decls)
}

/// The decimal value of a string of digits (as ASCII codes).
pub open spec fn decimal_value(s: Seq<u8>) -> nat
    decreases s.len(),
{
    if s.len() == 0 {
        0
    } else {
        10 * decimal_value(s.drop_last()) + (s.last() - 48) as nat
    }
}

pub open spec fn all_digits(s: Seq<u8>) -> bool {
    forall|i: int| 0 <= i < s.len() ==> 48 <= #[trigger] s[i] <= 57
}

/// The number that `s` writes in decimal, if it is one and fits in 32 bits.
pub open spec fn parse_decimal(s: Seq<char>) -> Option<u32> {
    let b = encode_utf8(s);
    if b.len() > 0 && all_digits(b) && decimal_value(b) <= u32::MAX {
        Some(decimal_value(b) as u32)
    } else {
        None
    }
}

fn str_eq(a: &str, b: &str) -> (r: bool)
    ensures
        r == (a@ == b@),
{
    let x = a.as_bytes();
    let y = b.as_bytes();
    if x.len() != y.len() {
        return false;
    }
    let mut i: usize = 0;
    while i < x.len()
        invariant
            0 <= i <= x@.len(),
            x@.len() == y@.len(),
            x@ == a.spec_bytes(),
            y@ == b.spec_bytes(),
            forall|j: int| 0 <= j < i ==> x@[j] == y@[j],
        decreases x@.len() - i,
    {
        if x[i] != y[i] {
            return false;
        }
        i = i + 1;
    }
    assert(x@ =~= y@);
    assert(vstd::utf8::decode_utf8(encode_utf8(a@)) == a@);
    assert(vstd::utf8::decode_utf8(encode_utf8(b@)) == b@);
    true
}

proof fn lemma_decimal_grows(s: Seq<u8>, t: Seq<u8>)
    requires
        all_digits(s + t),
    ensures
        decimal_value(s + t) >= decimal_value(s),
    decreases t.len(),
{
    if t.len() > 0 {
        let u = s + t;
        assert(u.drop_last() =~= s + t.drop_last());
        lemma_decimal_grows(s, t.drop_last());
    } else {
        assert(s + t =~= s);
    }
}

fn parse_u32(s: &str) -> (r: Option<u32>)
    ensures
        r == parse_decimal(s@),
{
    let b = s.as_bytes();
    let n = b.len();
    if n == 0 {
        return None;
    }
    let mut acc: u64 = 0;
    let mut i: usize = 0;
    while i < n
        invariant
            0 <= i <= n,
            n == b@.len(),
            b@ == encode_utf8(s@),
            all_digits(b@.subrange(0, i as int)),
            acc as nat == decimal_value(b@.subrange(0, i as int)),
            acc <= u32::MAX,
        decreases n - i,
    {
        let c = b[i];
        if c < 48 || c > 57 {
            proof {
                assert(!all_digits(b@));
            }
            return None;
        }
        proof {
            assert(b@.subrange(0, i + 1).drop_last() =~= b@.subrange(0, i as int));
        }
        let next: u64 = acc * 10 + (c - 48) as u64;
        if next > 0xffff_ffff {
            proof {
                let p = b@.subrange(0, i + 1);
                if all_digits(b@) {
                    lemma_decimal_grows(p, b@.subrange(i + 1, n as int));
                    assert(p + b@.subrange(i + 1, n as int) =~= b@);
                }
            }
            return None;
        }
        acc = next;
        i = i + 1;
    }
    assert(b@.subrange(0, n as int) =~= b@);
    Some(acc as u32)
}

proof fn lemma_declared_step(decls: Seq<KindDecl>, n: nat)
    requires
        n < decls.len(),
    ensures
        declared(decls, n + 1) == declared(decls, n) + edges_of(n as int, decls[n as int]),
{
}

proof fn lemma_declared_source(decls: Seq<KindDecl>, n: nat, e: int)
    requires
        n <= decls.len(),
        0 <= e < declared(decls, n).len(),
    ensures
        0 <= declared(decls, n)[e].0 < n,
    decreases n,
{
    if n > 0 {
        let prev = declared(decls, (n - 1) as nat);
        if e < prev.len() {
            lemma_declared_source(decls, (n - 1) as nat, e);
        }
    }
}

/// Finds the declaration named `name`.
fn find_kind(decls: &Vec<KindDecl>, name: &str) -> (r: Option<usize>)
    ensures
        r is Some ==> r.unwrap() < decls@.len() && decls@[r.unwrap() as int].name@ == name@,
        r is None ==> !is_declared(decls@, name@),
{
    let mut k: usize = 0;
    while k < decls.len()
        invariant
            0 <= k <= decls@.len(),
            forall|j: int| 0 <= j < k ==> decls@[j].name@ != name@,
        decreases decls@.len() - k,
    {
        if str_eq(decls[k].name.as_str(), name) {
            return Some(k);
        }
        k = k + 1;
    }
    None
}

impl Schema {
    /// The schema compiled from `decls`, when it is valid.
    pub open spec fn compiled_from(self, decls: Seq<KindDecl>) -> bool {
        &&& self.kind_names@.len() == decls.len()
        &&& self.key_types@.len() == decls.len()
        &&& forall|k: int|
            0 <= k < decls.len() ==> #[trigger] self.kind_names@[k]@ == decls[k].name@
                && self.key_types@[k] == decls[k].key
        &&& self.edges@.len() == all_declared(decls).len()
        &&& forall|e: int|
            0 <= e < self.edges@.len() ==> {
                let d = #[trigger] all_declared(decls)[e];
                &&& self.edges@[e].name@ == d.1
                &&& self.edges@[e].source as int == d.0
                &&& self.edges@[e].target < decls.len()
                &&& decls[self.edges@[e].target as int].name@ == d.2
            }
    }

    pub open spec fn wf(self) -> bool {
        &&& self.kind_names@.len() > 0
        &&& self.key_types@.len() == self.kind_names@.len()
        &&& forall|e: int|
            0 <= e < self.edges@.len() ==> #[trigger] self.edges@[e].source < self.kind_names@.len()
                && self.edges@[e].target < self.kind_names@.len()
    }

    /// Compiles declarations; the first must be `Root`, whose targets are the
    /// traversal entry points. Each target yields an edge named
    /// `SourceToLabel`.
    pub fn compile(decls: &Vec<KindDecl>) -> (r: Result<Schema, CompileError>)
        ensures
            r is Ok <==> valid_schema(decls@),
            r is Ok ==> r.unwrap().compiled_from(decls@) && r.unwrap().wf(),
            r == Err::<Schema, CompileError>(CompileError::MissingRoot) <==> !rooted(decls@),
            (r is Err && r->Err_0 is DuplicateKind) <==> (rooted(decls@) && !kinds_unique(decls@)),
            (r is Err && r->Err_0 is OrphanTarget) <==> (rooted(decls@) && kinds_unique(decls@)
                && !no_orphans(decls@)),
            (r is Err && r->Err_0 is DuplicateEdge) <==> (rooted(decls@) && kinds_unique(decls@)
                && no_orphans(decls@) && !edges_unique(decls@)),
            r is Err && r->Err_0 is DuplicateKind ==> exists|i: int, j: int|
                0 <= i < j < decls@.len() && decls@[i].name@ == decls@[j].name@
                    && decls@[i].name@ == r->Err_0->DuplicateKind_0@,
            r is Err && r->Err_0 is OrphanTarget ==> exists|e: int|
                0 <= e < all_declared(decls@).len() && all_declared(decls@)[e].2
                    == r->Err_0->OrphanTarget_0@ && !is_declared(
                    decls@,
                    r->Err_0->OrphanTarget_0@,
                ),
            r is Err && r->Err_0 is DuplicateEdge ==> exists|a: int, b: int|
                0 <= a < b < all_declared(decls@).len() && all_declared(decls@)[a].1
                    == all_declared(decls@)[b].1 && all_declared(decls@)[a].1
                    == r->Err_0->DuplicateEdge_0@,
    {
        let n = decls.len();
        if n == 0 || !str_eq(decls[0].name.as_str(), "Root") {
            return Err(CompileError::MissingRoot);
        }
        let mut kind_names: Vec<String> = Vec::new();
        let mut key_types: Vec<KeyType> = Vec::new();
        let mut i: usize = 0;
        while i < n
            invariant
                0 <= i <= n,
                n == decls@.len(),
                rooted(decls@),
                kind_names@.len() == i,
                key_types@.len() == i,
                forall|k: int| 0 <= k < i ==> #[trigger] kind_names@[k]@ == decls@[k].name@,
                forall|k: int| 0 <= k < i ==> #[trigger] key_types@[k] == decls@[k].key,
                forall|a: int, b: int| 0 <= a < b < i ==> decls@[a].name@ != decls@[b].name@,
            decreases n - i,
        {
            let mut j: usize = 0;
            while j < i
                invariant
                    0 <= j <= i,
                    i < n,
                    n == decls@.len(),
                    rooted(decls@),
                    forall|a: int| 0 <= a < j ==> decls@[a].name@ != decls@[i as int].name@,
                decreases i - j,
            {
                if str_eq(decls[j].name.as_str(), decls[i].name.as_str()) {
                    proof {
                        assert(!kinds_unique(decls@));
                    }
                    return Err(CompileError::DuplicateKind(decls[i].name.clone()));
                }
                j = j + 1;
            }
            let name = decls[i].name.clone();
            kind_names.push(name);
            key_types.push(decls[i].key);
            i = i + 1;
        }
        let mut edges: Vec<CompiledEdge> = Vec::new();
        let mut s: usize = 0;
        while s < n
            invariant
                0 <= s <= n,
                n == decls@.len(),
                rooted(decls@),
                kinds_unique(decls@),
                kind_names@.len() == n,
                key_types@.len() == n,
                forall|k: int|
                    0 <= k < n ==> #[trigger] kind_names@[k]@ == decls@[k].name@ && key_types@[k]
                        == decls@[k].key,
                edges@.len() == declared(decls@, s as nat).len(),
                forall|e: int|
                    0 <= e < edges@.len() ==> {
                        let d = #[trigger] declared(decls@, s as nat)[e];
                        &&& edges@[e].name@ == d.1
                        &&& edges@[e].source as int == d.0
                        &&& edges@[e].target < n
                        &&& decls@[edges@[e].target as int].name@ == d.2
                    },
                forall|e: int|
                    0 <= e < declared(decls@, s as nat).len() ==> is_declared(
                        decls@,
                        #[trigger] declared(decls@, s as nat)[e].2,
                    ),
            decreases n - s,
        {
            let d = &decls[s];
            let ghost before = declared(decls@, s as nat);
            let ghost mine = edges_of(s as int, decls@[s as int]);
            proof {
                lemma_declared_step(decls@, s as nat);
            }
            let mut t: usize = 0;
            while t < d.targets.len()
                invariant
                    0 <= t <= d.targets@.len(),
                    s < n,
                    n == decls@.len(),
                    rooted(decls@),
                    kinds_unique(decls@),
                    kind_names@.len() == n,
                    key_types@.len() == n,
                    forall|k: int|
                        0 <= k < n ==> #[trigger] kind_names@[k]@ == decls@[k].name@
                            && key_types@[k] == decls@[k].key,
                    before == declared(decls@, s as nat),
                    declared(decls@, (s + 1) as nat) == before + mine,
                    *d == decls@[s as int],
                    mine == edges_of(s as int, decls@[s as int]),
                    edges@.len() == before.len() + t,
                    forall|e: int|
                        0 <= e < edges@.len() ==> {
                            let x = #[trigger] (before + mine)[e];
                            &&& edges@[e].name@ == x.1
                            &&& edges@[e].source as int == x.0
                            &&& edges@[e].target < n
                            &&& decls@[edges@[e].target as int].name@ == x.2
                        },
                    forall|e: int|
                        0 <= e < before.len() + t ==> is_declared(
                            decls@,
                            #[trigger] (before + mine)[e].2,
                        ),
                decreases d.targets@.len() - t,
            {
                let target = &d.targets[t];
                match find_kind(decls, target.target.as_str()) {
                    None => {
                        proof {
                            let e = before.len() + t;
                            assert((before + mine)[e] == mine[t as int]);
                            assert(declared(decls@, (s + 1) as nat) == before + mine);
                            lemma_declared_prefix(decls@, (s + 1) as nat, n as nat, e);
                            assert(all_declared(decls@)[e].2 == target.target@);
                            assert(!no_orphans(decls@));
                        }
                        return Err(CompileError::OrphanTarget(target.target.clone()));
                    },
                    Some(k) => {
                        let mut name = d.name.clone();
                        name.append("To");
                        name.append(target.label.as_str());
                        proof {
                            reveal_strlit("To");
                            assert((before + mine)[before.len() + t] == mine[t as int]);
                        }
                        edges.push(CompiledEdge { name, source: s, target: k });
                    },
                }
                t = t + 1;
            }
            proof {
                assert(declared(decls@, (s + 1) as nat) == before + mine);
            }
            s = s + 1;
        }
        let m = edges.len();
        let mut a: usize = 0;
        while a < m
            invariant
                0 <= a <= m,
                rooted(decls@),
                kinds_unique(decls@),
                no_orphans(decls@),
                kind_names@.len() == n,
                key_types@.len() == n,
                n == decls@.len(),
                forall|k: int|
                    0 <= k < n ==> #[trigger] kind_names@[k]@ == decls@[k].name@ && key_types@[k]
                        == decls@[k].key,
                forall|e: int|
                    0 <= e < edges@.len() ==> {
                        let d = #[trigger] all_declared(decls@)[e];
                        &&& edges@[e].source as int == d.0
                        &&& edges@[e].target < n
                        &&& decls@[edges@[e].target as int].name@ == d.2
                    },
                m == edges@.len(),
                edges@.len() == all_declared(decls@).len(),
                forall|e: int|
                    0 <= e < edges@.len() ==> #[trigger] edges@[e].name@ == all_declared(
                        decls@,
                    )[e].1,
                forall|x: int, y: int|
                    0 <= x < y < m && x < a ==> all_declared(decls@)[x].1 != all_declared(
                        decls@,
                    )[y].1,
            decreases m - a,
        {
            let mut b: usize = a + 1;
            while b < m
                invariant
                    a < b <= m,
                    m == edges@.len(),
                    rooted(decls@),
                    kinds_unique(decls@),
                    no_orphans(decls@),
                    edges@.len() == all_declared(decls@).len(),
                    forall|e: int|
                        0 <= e < edges@.len() ==> #[trigger] edges@[e].name@ == all_declared(
                            decls@,
                        )[e].1,
                    forall|y: int| a < y < b ==> all_declared(decls@)[a as int].1 != all_declared(
                        decls@,
                    )[y].1,
                decreases m - b,
            {
                if str_eq(edges[a].name.as_str(), edges[b].name.as_str()) {
                    proof {
                        assert(edges@[a as int].name@ == all_declared(decls@)[a as int].1);
                        assert(edges@[b as int].name@ == all_declared(decls@)[b as int].1);
                        assert(!edges_unique(decls@));
                    }
                    return Err(CompileError::DuplicateEdge(edges[a].name.clone()));
                }
                b = b + 1;
            }
            a = a + 1;
        }
        let r = Schema { kind_names, key_types, edges };
        proof {
            assert forall|e: int| 0 <= e < r.edges@.len() implies #[trigger] r.edges@[e].source
                < r.kind_names@.len() && r.edges@[e].target < r.kind_names@.len() by {
                lemma_declared_source(decls@, n as nat, e);
            }
        }
        Ok(r)
    }

    /// The kind an edge leaves from; `None` for edges from `Root`.
    pub fn incoming_type(&self, edge: usize) -> (r: Option<usize>)
        requires
            edge < self.edges@.len(),
        ensures
            r == (if self.edges@[edge as int].source == 0 {
                None
            } else {
                Some(self.edges@[edge as int].source)
            }),
    {
        let source = self.edges[edge].source;
        if source == 0 {
            None
        } else {
            Some(source)
        }
    }

    /// The kind an edge leads to.
    pub fn outgoing_type(&self, edge: usize) -> (r: usize)
        requires
            edge < self.edges@.len(),
        ensures
            r == self.edges@[edge as int].target,
    {
        self.edges[edge].target
    }

    /// The first edge from `Root` that reaches `kind`, if any.
    pub fn root_edge_type(&self, kind: usize) -> (r: Option<usize>)
        ensures
            r is Some ==> r.unwrap() < self.edges@.len() && self.edges@[r.unwrap() as int].source
                == 0 && self.edges@[r.unwrap() as int].target == kind && forall|e: int|
                0 <= e < r.unwrap() ==> !(self.edges@[e].source == 0 && self.edges@[e].target
                    == kind),
            r is None ==> forall|e: int|
                0 <= e < self.edges@.len() ==> !(self.edges@[e].source == 0 && self.edges@[e].target
                    == kind),
    {
        let mut e: usize = 0;
        while e < self.edges.len()
            invariant
                0 <= e <= self.edges@.len(),
                forall|x: int|
                    0 <= x < e ==> !(self.edges@[x].source == 0 && self.edges@[x].target == kind),
            decreases self.edges@.len() - e,
        {
            if self.edges[e].source == 0 && self.edges[e].target == kind {
                return Some(e);
            }
            e = e + 1;
        }
        None
    }

    /// The index of the kind named `name`.
    pub fn kind_index(&self, name: &str) -> (r: Option<usize>)
        ensures
            r is Some ==> r.unwrap() < self.kind_names@.len() && self.kind_names@[r.unwrap() as int]@
                == name@,
            r is None ==> forall|k: int|
                0 <= k < self.kind_names@.len() ==> self.kind_names@[k]@ != name@,
    {
        let mut k: usize = 0;
        while k < self.kind_names.len()
            invariant
                0 <= k <= self.kind_names@.len(),
                forall|j: int| 0 <= j < k ==> self.kind_names@[j]@ != name@,
            decreases self.kind_names@.len() - k,
        {
            if str_eq(self.kind_names[k].as_str(), name) {
                return Some(k);
            }
            k = k + 1;
        }
        None
    }

    /// The index of the edge named `name`.
    pub fn edge_index(&self, name: &str) -> (r: Option<usize>)
        ensures
            r is Some ==> r.unwrap() < self.edges@.len() && self.edges@[r.unwrap() as int].name@
                == name@,
            r is None ==> forall|e: int|
                0 <= e < self.edges@.len() ==> self.edges@[e].name@ != name@,
    {
        let mut e: usize = 0;
        while e < self.edges.len()
            invariant
                0 <= e <= self.edges@.len(),
                forall|j: int| 0 <= j < e ==> self.edges@[j].name@ != name@,
            decreases self.edges@.len() - e,
        {
            if str_eq(self.edges[e].name.as_str(), name) {
                return Some(e);
            }
            e = e + 1;
        }
        None
    }

    /// Parses a human-entered identifier of a node of kind `kind`.
    pub fn parse_node(&self, kind: usize, s: &str) -> (r: Result<SchemaNode, KeyParseError>)
        requires
            kind < self.key_types@.len(),
        ensures
            self.key_types@[kind as int] == KeyType::Unit ==> r == Err::<
                SchemaNode,
                KeyParseError,
            >(KeyParseError::Unsupported(kind)),
            self.key_types@[kind as int] == KeyType::Number ==> match parse_decimal(s@) {
                Some(v) => r == Ok::<SchemaNode, KeyParseError>(
                    SchemaNode { kind, key: KeyValue::Number(v) },
                ),
                None => r == Err::<SchemaNode, KeyParseError>(KeyParseError::Malformed(kind)),
            },
    {
        match self.key_types[kind] {
            KeyType::Unit => Err(KeyParseError::Unsupported(kind)),
            KeyType::Number => match parse_u32(s) {
                Some(v) => Ok(SchemaNode { kind, key: KeyValue::Number(v) }),
                None => Err(KeyParseError::Malformed(kind)),
            },
        }
    }
}

proof fn lemma_declared_prefix(decls: Seq<KindDecl>, m: nat, n: nat, e: int)
    requires
        m <= n <= decls.len(),
        0 <= e < declared(decls, m).len(),
    ensures
        e < declared(decls, n).len(),
        declared(decls, n)[e] == declared(decls, m)[e],
    decreases n - m,
{
    if m < n {
        lemma_declared_prefix(decls, m, (n - 1) as nat, e);
    }
}

impl SchemaNode {
    pub fn new(kind: usize, key: KeyValue) -> (r: SchemaNode)
        ensures
            r.kind == kind,
            r.key == key,
    {
        SchemaNode { kind, key }
    }

    /// The kind of a node.
    pub fn get_type(&self) -> (r: usize)
        ensures
            r == self.kind,
    {
        self.kind
    }
}

impl TargetDecl {
    /// A target whose edge is labelled by the target kind's own name.
    pub fn plain(target: &str) -> (r: TargetDecl)
        ensures
            r.label@ == target@,
            r.target@ == target@,
    {
        TargetDecl { label: target.to_owned(), target: target.to_owned() }
    }

    /// A target whose edge carries a label of its own.
    pub fn relabelled(label: &str, target: &str) -> (r: TargetDecl)
        ensures
            r.label@ == label@,
            r.target@ == target@,
    {
        TargetDecl { label: label.to_owned(), target: target.to_owned() }
    }
}

impl KindDecl {
    pub fn new(name: &str, key: KeyType, targets: Vec<TargetDecl>) -> (r: KindDecl)
        ensures
            r.name@ == name@,
            r.key == key,
            r.targets@ == targets@,
    {
        KindDecl { name: name.to_owned(), key, targets }
    }
}

} // verus!
