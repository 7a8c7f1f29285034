//! The hash primitive: the Poseidon permutation of `fawkes_crypto`, with the
//! parameter tables that one instantiation of it reads.
//!
//! The permutation itself is not part of this library. What it returns is
//! named by [`poseidon_permutation`]; the library states which inputs and
//! which tables it hands to it.

use vstd::prelude::*;
use fawkes_crypto::native::num::Num;
use fawkes_crypto::native::poseidon::{poseidon, poseidon_with_salt, PoseidonParams};
use ff_ce::PrimeField;
use pairing_ce::bn256::{Fr, FrRepr};
use crate::errors::ShapeError;
use crate::field::{values, FieldElement};

verus! {

/// What `fawkes_crypto::native::poseidon::poseidon` returns over the BN254
/// scalar field for the given inputs, round constants `c`, mixing matrix `m`,
/// state width `t` and round counts `f` (full) and `p` (partial).
pub uninterp spec fn poseidon_permutation(
    inputs: Seq<nat>,
    c: Seq<nat>,
    m: Seq<Seq<nat>>,
    t: nat,
    f: nat,
    p: nat,
) -> nat;

/// The round constants and the mixing matrix that
/// `fawkes_crypto::native::poseidon::PoseidonParams::new` derives from a state
/// width and two round counts.
pub uninterp spec fn poseidon_tables(t: nat, f: nat, p: nat) -> (Seq<nat>, Seq<Seq<nat>>);

/// The field element that `fawkes_crypto::native::num::Num::from_seed`
/// derives from a byte string.
pub uninterp spec fn seed_element(seed: Seq<u8>) -> nat;

/// The widest state that tables are generated for.
pub const MAX_WIDTH: usize = 256;

/// The most rounds, full and partial together, that tables are generated for.
pub const MAX_ROUNDS: usize = 65536;

/// The views of the rows of a matrix of field elements.
pub open spec fn rows(m: Seq<Vec<FieldElement>>) -> Seq<Seq<nat>> {
    m.map_values(|row: Vec<FieldElement>| values(row@))
}

/// The parameters of one instantiation of the hash: the width of the state,
/// the numbers of full and partial rounds, one constant for each round and a
/// square mixing matrix as wide as the state.
#[derive(Debug)]
pub struct HashParams {
    pub(crate) t: usize,
    pub(crate) f: usize,
    pub(crate) p: usize,
    pub(crate) c: Vec<FieldElement>,
    pub(crate) m: Vec<Vec<FieldElement>>,
}

/// The hash of `inputs` under `params`.
pub open spec fn hash_spec(inputs: Seq<nat>, params: HashParams) -> nat {
    poseidon_permutation(
        inputs,
        params.round_constants(),
        params.matrix(),
        params.width(),
        params.full_rounds(),
        params.partial_rounds(),
    )
}

/// The hash of `inputs` under `params`, separated from other uses of the same
/// parameters by the domain tag `tag`: the element derived from the tag is
/// hashed as one more input.
pub open spec fn tagged_hash_spec(inputs: Seq<nat>, tag: Seq<u8>, params: HashParams) -> nat {
    hash_spec(inputs.push(seed_element(tag)), params)
}

/// Whether two sets of parameters are one and the same instantiation of the
/// hash: the same width, the same round counts and the same tables.
pub open spec fn same_instantiation(a: HashParams, b: HashParams) -> bool {
    &&& a.width() == b.width()
    &&& a.full_rounds() == b.full_rounds()
    &&& a.partial_rounds() == b.partial_rounds()
    &&& a.round_constants() == b.round_constants()
    &&& a.matrix() == b.matrix()
}

/// Whether `m` is a square matrix of side `t`.
pub open spec fn is_square(m: Seq<Vec<FieldElement>>, t: nat) -> bool {
    &&& m.len() == t
    &&& forall|i: int| 0 <= i < m.len() ==> (#[trigger] m[i]).len() == t
}

impl HashParams {
    /// The width of the state: the most inputs that one call can take.
    pub closed spec fn width(&self) -> nat {
        self.t as nat
    }

    /// The number of full rounds.
    pub closed spec fn full_rounds(&self) -> nat {
        self.f as nat
    }

    /// The number of partial rounds.
    pub closed spec fn partial_rounds(&self) -> nat {
        self.p as nat
    }

    /// The round constants.
    pub closed spec fn round_constants(&self) -> Seq<nat> {
        values(self.c@)
    }

    /// The mixing matrix, row by row.
    pub closed spec fn matrix(&self) -> Seq<Seq<nat>> {
        rows(self.m@)
    }

    /// There is one constant for each round, and the matrix is square and as
    /// wide as the state.
    #[verifier::type_invariant]
    pub open spec fn wf(&self) -> bool {
        &&& self.round_constants().len() == self.full_rounds() + self.partial_rounds()
        &&& self.matrix().len() == self.width()
        &&& forall|i: int|
            0 <= i < self.matrix().len() ==> (#[trigger] self.matrix()[i]).len() == self.width()
    }

    /// The parameters of the hash of width `t` with `f` full and `p` partial
    /// rounds, with the tables that belong to these three numbers. Fails with
    /// `ShapeError::StateWidth` if `t` is above `MAX_WIDTH`, and else with
    /// `ShapeError::RoundCount` if `f + p` is above `MAX_ROUNDS`.
    pub fn new(t: usize, f: usize, p: usize) -> (r: Result<HashParams, ShapeError>)
        ensures
            r is Ok <==> t <= MAX_WIDTH && f + p <= MAX_ROUNDS,
            r matches Ok(h) ==> {
                &&& h.wf()
                &&& h.width() == t
                &&& h.full_rounds() == f
                &&& h.partial_rounds() == p
                &&& (h.round_constants(), h.matrix()) == poseidon_tables(
                    t as nat,
                    f as nat,
                    p as nat,
                )
            },
            r matches Err(e) ==> e == (if t > MAX_WIDTH {
                ShapeError::StateWidth
            } else {
                ShapeError::RoundCount
            }),
    {
        if t > MAX_WIDTH {
            Err(ShapeError::StateWidth)
        } else if f > MAX_ROUNDS || p > MAX_ROUNDS - f {
            Err(ShapeError::RoundCount)
        } else {
            Ok(generate_tables(t, f, p))
        }
    }

    /// The parameters made of the given tables. Fails with
    /// `ShapeError::HashTables` unless `c` holds `f + p` constants and `m` is
    /// a square matrix of side `t`.
    pub fn from_tables(
        t: usize,
        f: usize,
        p: usize,
        c: Vec<FieldElement>,
        m: Vec<Vec<FieldElement>>,
    ) -> (r: Result<HashParams, ShapeError>)
        ensures
            r is Ok <==> c@.len() == f + p && is_square(m@, t as nat),
            r matches Ok(h) ==> {
                &&& h.wf()
                &&& h.width() == t
                &&& h.full_rounds() == f
                &&& h.partial_rounds() == p
                &&& h.round_constants() == values(c@)
                &&& h.matrix() == rows(m@)
            },
            r matches Err(e) ==> e == ShapeError::HashTables,
    {
        let constants = c.len();
        if f > usize::MAX - p || constants != f + p || m.len() != t {
            return Err(ShapeError::HashTables);
        }
        let mut i: usize = 0;
        while i < m.len()
            invariant
                i <= m.len(),
                m.len() == t,
                forall|j: int| 0 <= j < i ==> (#[trigger] m@[j]).len() == t,
            decreases m.len() - i,
        {
            if m[i].len() != t {
                return Err(ShapeError::HashTables);
            }
            i += 1;
        }
        Ok(HashParams { t, f, p, c, m })
    }

    /// The width of the state.
    pub fn state_width(&self) -> (r: usize)
        ensures
            r == self.width(),
    {
        self.t
    }

    /// The number of full rounds.
    pub fn full_round_count(&self) -> (r: usize)
        ensures
            r == self.full_rounds(),
    {
        self.f
    }

    /// The number of partial rounds.
    pub fn partial_round_count(&self) -> (r: usize)
        ensures
            r == self.partial_rounds(),
    {
        self.p
    }

    /// The round constants, one for each round.
    pub fn constants(&self) -> (r: &Vec<FieldElement>)
        ensures
            values(r@) == self.round_constants(),
    {
        &self.c
    }

    /// The mixing matrix, row by row.
    pub fn mixing_matrix(&self) -> (r: &Vec<Vec<FieldElement>>)
        ensures
            rows(r@) == self.matrix(),
    {
        &self.m
    }

    /// Whether these parameters and `other` are the same instantiation of the
    /// hash.
    pub fn same_as(&self, other: &HashParams) -> (r: bool)
        ensures
            r == same_instantiation(*self, *other),
    {
        self.t == other.t && self.f == other.f && self.p == other.p && same_elements(
            &self.c,
            &other.c,
        ) && same_rows(&self.m, &other.m)
    }

    /// The hash of `inputs`. Fails with `ShapeError::HashWidth` unless there
    /// is at least one input and no more inputs than the state is wide.
    pub fn hash(&self, inputs: &Vec<FieldElement>) -> (r: Result<FieldElement, ShapeError>)
        ensures
            r is Ok <==> 0 < inputs@.len() <= self.width(),
            r matches Ok(h) ==> h@ == hash_spec(values(inputs@), *self),
            r matches Err(e) ==> e == ShapeError::HashWidth,
    {
        if inputs.len() == 0 || inputs.len() > self.t {
            Err(ShapeError::HashWidth)
        } else {
            proof {
                use_type_invariant(self);
            }
            Ok(permute(inputs, self))
        }
    }

    /// The hash of `inputs` in the domain of `tag`. Fails with
    /// `ShapeError::HashWidth` unless there is at least one input and the
    /// state is wide enough for the inputs and the tag.
    pub fn tagged_hash(&self, inputs: &Vec<FieldElement>, tag: &[u8]) -> (r: Result<
        FieldElement,
        ShapeError,
    >)
        ensures
            r is Ok <==> 0 < inputs@.len() < self.width(),
            r matches Ok(h) ==> h@ == tagged_hash_spec(values(inputs@), tag@, *self),
            r matches Err(e) ==> e == ShapeError::HashWidth,
    {
        if inputs.len() == 0 || inputs.len() >= self.t {
            Err(ShapeError::HashWidth)
        } else {
            proof {
                use_type_invariant(self);
            }
            Ok(permute_tagged(inputs, tag, self))
        }
    }
}

/// Whether two vectors hold the same elements in the same order.
fn same_elements(a: &Vec<FieldElement>, b: &Vec<FieldElement>) -> (r: bool)
    ensures
        r == (values(a@) == values(b@)),
{
    if a.len() != b.len() {
        assert(values(a@).len() != values(b@).len());
        return false;
    }
    let mut i: usize = 0;
    while i < a.len()
        invariant
            i <= a.len(),
            a.len() == b.len(),
            forall|j: int| 0 <= j < i ==> (#[trigger] a@[j])@ == b@[j]@,
        decreases a.len() - i,
    {
        if !a[i].equals(&b[i]) {
            assert(values(a@)[i as int] != values(b@)[i as int]);
            return false;
        }
        i += 1;
    }
    assert(values(a@) =~= values(b@));
    true
}

/// Whether two matrices hold the same rows in the same order.
fn same_rows(a: &Vec<Vec<FieldElement>>, b: &Vec<Vec<FieldElement>>) -> (r: bool)
    ensures
        r == (rows(a@) == rows(b@)),
{
    if a.len() != b.len() {
        assert(rows(a@).len() != rows(b@).len());
        return false;
    }
    let mut i: usize = 0;
    while i < a.len()
        invariant
            i <= a.len(),
            a.len() == b.len(),
            forall|j: int| 0 <= j < i ==> values((#[trigger] a@[j])@) == values(b@[j]@),
        decreases a.len() - i,
    {
        if !same_elements(&a[i], &b[i]) {
            assert(rows(a@)[i as int] != rows(b@)[i as int]);
            return false;
        }
        i += 1;
    }
    assert(rows(a@) =~= rows(b@));
    true
}

/// Calls `PoseidonParams::<Fr>::new`, which draws `f + p` round constants and
/// then a `t` by `t` matrix from a generator seeded by the three numbers
/// alone, and copies the tables it returns limb by limb. The tables are named
/// by `poseidon_tables`; their sizes are those that the source shows. The
/// call allocates tables of these sizes, so the sizes are bounded.
#[verifier::external_body]
fn generate_tables(t: usize, f: usize, p: usize) -> (r: HashParams)
    requires
        t <= MAX_WIDTH,
        f + p <= MAX_ROUNDS,
    ensures
        r.wf(),
        r.width() == t,
        r.full_rounds() == f,
        r.partial_rounds() == p,
        (r.round_constants(), r.matrix()) == poseidon_tables(t as nat, f as nat, p as nat),
{
    let params = PoseidonParams::<Fr>::new(t, f, p);
    let element = |n: &Num<Fr>| {
        FieldElement { limbs: n.0.into_repr().0 }
    };
    HashParams {
        t,
        f,
        p,
        c: params.c.iter().map(element).collect(),
        m: params.m.iter().map(|row| row.iter().map(element).collect()).collect(),
    }
}

/// Calls `fawkes_crypto::native::poseidon::poseidon` on the inputs and the
/// tables, copied limb by limb, and names its result. The call panics unless
/// there is at least one input and at most `t` of them, and it reads one
/// constant for each round and a `t` by `t` corner of the matrix. The limbs
/// of every element encode an integer below the modulus, so each copy
/// succeeds.
#[verifier::external_body]
pub(crate) fn permute(inputs: &Vec<FieldElement>, params: &HashParams) -> (r: FieldElement)
    requires
        params.wf(),
        0 < inputs@.len() <= params.width(),
    ensures
        r@ == poseidon_permutation(
            values(inputs@),
            params.round_constants(),
            params.matrix(),
            params.width(),
            params.full_rounds(),
            params.partial_rounds(),
        ),
{
    let num = |e: &FieldElement| Num(Fr::from_repr(FrRepr(e.limbs)).unwrap());
    let tables = PoseidonParams::<Fr> {
        c: params.c.iter().map(num).collect(),
        m: params.m.iter().map(|row| row.iter().map(num).collect()).collect(),
        t: params.t,
        f: params.f,
        p: params.p,
    };
    let inputs: Vec<Num<Fr>> = inputs.iter().map(num).collect();
    FieldElement { limbs: poseidon(&inputs, &tables).0.into_repr().0 }
}

/// Calls `fawkes_crypto::native::poseidon::poseidon_with_salt`, which appends
/// `Num::from_seed(tag)` to the inputs and hashes them with `poseidon`. The
/// call panics unless there is at least one input and fewer than `t` of them.
#[verifier::external_body]
pub(crate) fn permute_tagged(inputs: &Vec<FieldElement>, tag: &[u8], params: &HashParams) -> (r:
    FieldElement)
    requires
        params.wf(),
        0 < inputs@.len() < params.width(),
    ensures
        r@ == poseidon_permutation(
            values(inputs@).push(seed_element(tag@)),
            params.round_constants(),
            params.matrix(),
            params.width(),
            params.full_rounds(),
            params.partial_rounds(),
        ),
{
    let num = |e: &FieldElement| Num(Fr::from_repr(FrRepr(e.limbs)).unwrap());
    let tables = PoseidonParams::<Fr> {
        c: params.c.iter().map(num).collect(),
        m: params.m.iter().map(|row| row.iter().map(num).collect()).collect(),
        t: params.t,
        f: params.f,
        p: params.p,
    };
    let inputs: Vec<Num<Fr>> = inputs.iter().map(num).collect();
    FieldElement { limbs: poseidon_with_salt(&inputs, tag, &tables).0.into_repr().0 }
}

} // verus!
