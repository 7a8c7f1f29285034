//! The hash primitive: its parameter tables and its two forms of call, held
//! against the Poseidon of the proof framework.

use fawkes_crypto::native::num::Num;
use fawkes_crypto::native::poseidon::{poseidon, poseidon_with_salt, PoseidonParams};
use mixer::errors::ShapeError;
use mixer::field::FieldElement;
use mixer::poseidon::{HashParams, MAX_ROUNDS, MAX_WIDTH};
use ff_ce::PrimeField;
use pairing_ce::bn256::{Fr, FrRepr};
use rand::{thread_rng, Rng};

fn num(e: &FieldElement) -> Num<Fr> {
    Num(Fr::from_repr(FrRepr(e.to_limbs())).unwrap())
}

fn element(n: &Num<Fr>) -> FieldElement {
    FieldElement::from_limbs(n.0.into_repr().0).unwrap()
}

fn random_element() -> FieldElement {
    let n: Num<Fr> = thread_rng().gen();
    element(&n)
}

fn nums(elements: &[FieldElement]) -> Vec<Num<Fr>> {
    elements.iter().map(num).collect()
}

#[test]
fn new_holds_the_tables_of_the_framework() {
    for (t, f, p) in [(2usize, 8usize, 53usize), (3, 8, 53), (4, 8, 54), (1, 2, 3), (0, 0, 0)] {
        let ours = HashParams::new(t, f, p).unwrap();
        let theirs = PoseidonParams::<Fr>::new(t, f, p);
        assert_eq!(ours.state_width(), t);
        assert_eq!(ours.full_round_count(), f);
        assert_eq!(ours.partial_round_count(), p);
        assert_eq!(ours.constants().len(), f + p);
        assert_eq!(nums(ours.constants()), theirs.c);
        assert_eq!(ours.mixing_matrix().len(), t);
        for (row, their_row) in ours.mixing_matrix().iter().zip(theirs.m.iter()) {
            assert_eq!(row.len(), t);
            assert_eq!(&nums(row), their_row);
        }
    }
}

#[test]
fn new_rejects_more_rounds_than_tables_are_generated_for() {
    assert_eq!(MAX_ROUNDS, 65536);
    assert!(HashParams::new(3, MAX_ROUNDS, 0).is_ok());
    assert!(HashParams::new(3, 1, MAX_ROUNDS - 1).is_ok());
    assert_eq!(HashParams::new(3, MAX_ROUNDS, 1).err(), Some(ShapeError::RoundCount));
    assert_eq!(HashParams::new(3, 0, MAX_ROUNDS + 1).err(), Some(ShapeError::RoundCount));
    assert_eq!(HashParams::new(3, usize::MAX, 1).err(), Some(ShapeError::RoundCount));
    assert_eq!(HashParams::new(3, 1, usize::MAX).err(), Some(ShapeError::RoundCount));
    assert_eq!(HashParams::new(3, usize::MAX, usize::MAX).err(), Some(ShapeError::RoundCount));
}

#[test]
fn new_rejects_a_wider_state_than_tables_are_generated_for() {
    assert_eq!(MAX_WIDTH, 256);
    assert_eq!(HashParams::new(MAX_WIDTH, 1, 1).map(|h| h.mixing_matrix().len()), Ok(256));
    assert_eq!(HashParams::new(MAX_WIDTH + 1, 1, 1).err(), Some(ShapeError::StateWidth));
    assert_eq!(HashParams::new(usize::MAX, 8, 53).err(), Some(ShapeError::StateWidth));
    assert_eq!(HashParams::new(usize::MAX, usize::MAX, 1).err(), Some(ShapeError::StateWidth));
}

#[test]
fn from_tables_takes_tables_of_the_right_sizes() {
    let made = HashParams::new(3, 8, 53).unwrap();
    let copy = HashParams::from_tables(
        3,
        8,
        53,
        made.constants().clone(),
        made.mixing_matrix().clone(),
    )
    .unwrap();
    assert_eq!(copy.state_width(), 3);
    assert_eq!(copy.full_round_count(), 8);
    assert_eq!(copy.partial_round_count(), 53);
    assert_eq!(copy.constants(), made.constants());
    assert_eq!(copy.mixing_matrix(), made.mixing_matrix());
    let inputs = vec![FieldElement::from_u64(1), FieldElement::from_u64(2)];
    assert_eq!(copy.hash(&inputs), made.hash(&inputs));
}

#[test]
fn from_tables_rejects_tables_of_the_wrong_sizes() {
    let zero = FieldElement::zero();
    let square = vec![vec![zero; 2]; 2];
    assert!(HashParams::from_tables(2, 1, 2, vec![zero; 3], square.clone()).is_ok());
    assert_eq!(
        HashParams::from_tables(2, 1, 2, vec![zero; 2], square.clone()).err(),
        Some(ShapeError::HashTables)
    );
    assert_eq!(
        HashParams::from_tables(2, 1, 2, vec![zero; 4], square.clone()).err(),
        Some(ShapeError::HashTables)
    );
    assert_eq!(
        HashParams::from_tables(3, 1, 2, vec![zero; 3], square.clone()).err(),
        Some(ShapeError::HashTables)
    );
    let short_row = vec![vec![zero; 2], vec![zero; 1]];
    assert_eq!(
        HashParams::from_tables(2, 1, 2, vec![zero; 3], short_row).err(),
        Some(ShapeError::HashTables)
    );
    let long_row = vec![vec![zero; 3], vec![zero; 2]];
    assert_eq!(
        HashParams::from_tables(2, 1, 2, vec![zero; 3], long_row).err(),
        Some(ShapeError::HashTables)
    );
    assert_eq!(
        HashParams::from_tables(2, usize::MAX, 2, vec![zero; 3], square.clone()).err(),
        Some(ShapeError::HashTables)
    );
    assert_eq!(
        HashParams::from_tables(2, usize::MAX, 4, vec![zero; 3], square).err(),
        Some(ShapeError::HashTables)
    );
    assert!(HashParams::from_tables(0, 0, 0, vec![], vec![]).is_ok());
}

#[test]
fn parameters_are_the_same_where_their_numbers_and_tables_are() {
    let made = HashParams::new(3, 8, 53).unwrap();
    assert!(made.same_as(&made));
    assert!(made.same_as(&HashParams::new(3, 8, 53).unwrap()));
    assert!(!made.same_as(&HashParams::new(2, 8, 53).unwrap()));
    assert!(!made.same_as(&HashParams::new(3, 8, 54).unwrap()));
    assert!(!made.same_as(&HashParams::new(3, 7, 54).unwrap()));
    let copy = |c: Vec<FieldElement>, m: Vec<Vec<FieldElement>>| {
        HashParams::from_tables(3, 8, 53, c, m).unwrap()
    };
    assert!(made.same_as(&copy(made.constants().clone(), made.mixing_matrix().clone())));
    for changed in [0, 30, 60] {
        let mut constants = made.constants().clone();
        constants[changed] = constants[changed].add(&FieldElement::one());
        assert!(!made.same_as(&copy(constants, made.mixing_matrix().clone())));
    }
    for (row, column) in [(0, 0), (1, 2), (2, 1), (2, 2)] {
        let mut matrix = made.mixing_matrix().clone();
        matrix[row][column] = matrix[row][column].add(&FieldElement::one());
        let other = copy(made.constants().clone(), matrix);
        assert!(!made.same_as(&other));
        assert!(!other.same_as(&made));
    }
    let full = HashParams::from_tables(2, 1, 2, vec![FieldElement::zero(); 3], vec![
        vec![FieldElement::zero(); 2],
        vec![FieldElement::zero(); 2],
    ])
    .unwrap();
    let partial = HashParams::from_tables(2, 2, 1, vec![FieldElement::zero(); 3], vec![
        vec![FieldElement::zero(); 2],
        vec![FieldElement::zero(); 2],
    ])
    .unwrap();
    assert!(!full.same_as(&partial));
}

#[test]
fn hash_is_the_poseidon_of_the_framework() {
    let ours = HashParams::new(3, 8, 53).unwrap();
    let theirs = PoseidonParams::<Fr>::new(3, 8, 53);
    for count in 1..=3 {
        for _ in 0..5 {
            let inputs: Vec<FieldElement> = (0..count).map(|_| random_element()).collect();
            let expected = poseidon(&nums(&inputs), &theirs);
            assert_eq!(ours.hash(&inputs).map(|h| num(&h)), Ok(expected));
        }
    }
}

#[test]
fn hash_reads_the_tables_it_is_given() {
    let made = HashParams::new(2, 8, 53).unwrap();
    let mut constants = made.constants().clone();
    constants[0] = constants[0].add(&FieldElement::one());
    let changed =
        HashParams::from_tables(2, 8, 53, constants.clone(), made.mixing_matrix().clone())
            .unwrap();
    let inputs = vec![FieldElement::from_u64(3)];
    assert_ne!(changed.hash(&inputs), made.hash(&inputs));
    let theirs = PoseidonParams::<Fr> {
        c: nums(&constants),
        m: made.mixing_matrix().iter().map(|row| nums(row)).collect(),
        t: 2,
        f: 8,
        p: 53,
    };
    assert_eq!(changed.hash(&inputs).map(|h| num(&h)), Ok(poseidon(&nums(&inputs), &theirs)));
}

#[test]
fn hash_does_not_hand_its_input_back() {
    let params = HashParams::new(2, 8, 53).unwrap();
    let input = FieldElement::from_u64(5);
    let once = params.hash(&vec![input]).unwrap();
    assert_ne!(once, input);
    assert_ne!(params.hash(&vec![once]).unwrap(), once);
    assert_ne!(params.tagged_hash(&vec![input], b"tag").unwrap(), input);
    assert_ne!(params.tagged_hash(&vec![input], b"tag").unwrap(), once);
}

#[test]
fn hash_depends_on_the_order_of_its_inputs() {
    let params = HashParams::new(3, 8, 53).unwrap();
    let a = FieldElement::from_u64(1);
    let b = FieldElement::from_u64(2);
    assert_ne!(params.hash(&vec![a, b]), params.hash(&vec![b, a]));
}

#[test]
fn hash_rejects_no_input_and_too_many() {
    let params = HashParams::new(2, 8, 53).unwrap();
    let a = FieldElement::from_u64(1);
    assert_eq!(params.hash(&vec![]), Err(ShapeError::HashWidth));
    assert!(params.hash(&vec![a]).is_ok());
    assert!(params.hash(&vec![a, a]).is_ok());
    assert_eq!(params.hash(&vec![a, a, a]), Err(ShapeError::HashWidth));
    let none = HashParams::new(0, 8, 53).unwrap();
    assert_eq!(none.hash(&vec![a]), Err(ShapeError::HashWidth));
}

#[test]
fn tagged_hash_is_the_salted_poseidon_of_the_framework() {
    let ours = HashParams::new(3, 8, 53).unwrap();
    let theirs = PoseidonParams::<Fr>::new(3, 8, 53);
    for tag in [&b"note_hash"[..], &b"nullifier"[..], &b""[..], &[0u8, 255, 7][..]] {
        for count in 1..=2 {
            let inputs: Vec<FieldElement> = (0..count).map(|_| random_element()).collect();
            let expected = poseidon_with_salt(&nums(&inputs), tag, &theirs);
            assert_eq!(ours.tagged_hash(&inputs, tag).map(|h| num(&h)), Ok(expected));
        }
    }
}

#[test]
fn tagged_hash_hashes_the_element_of_the_tag_as_one_more_input() {
    let params = HashParams::new(3, 8, 53).unwrap();
    let a = random_element();
    let b = random_element();
    let tag = b"some domain";
    let of_tag = element(&Num::<Fr>::from_seed(tag));
    assert_eq!(params.tagged_hash(&vec![a], tag), params.hash(&vec![a, of_tag]));
    assert_eq!(params.tagged_hash(&vec![a, b], tag), params.hash(&vec![a, b, of_tag]));
}

#[test]
fn tagged_hash_keeps_domains_apart() {
    let params = HashParams::new(2, 8, 53).unwrap();
    for _ in 0..10 {
        let input = vec![random_element()];
        assert_ne!(params.tagged_hash(&input, b"one"), params.tagged_hash(&input, b"two"));
        assert_ne!(params.tagged_hash(&input, b"one"), params.hash(&input));
    }
}

#[test]
fn tagged_hash_rejects_inputs_that_leave_no_room_for_the_tag() {
    let params = HashParams::new(2, 8, 53).unwrap();
    let a = FieldElement::from_u64(1);
    assert_eq!(params.tagged_hash(&vec![], b"tag"), Err(ShapeError::HashWidth));
    assert!(params.tagged_hash(&vec![a], b"tag").is_ok());
    assert_eq!(params.tagged_hash(&vec![a, a], b"tag"), Err(ShapeError::HashWidth));
    let narrow = HashParams::new(1, 8, 53).unwrap();
    assert_eq!(narrow.tagged_hash(&vec![a], b"tag"), Err(ShapeError::HashWidth));
}

#[test]
fn hashes_of_small_inputs_have_known_values() {
    let pair = HashParams::new(3, 8, 53).unwrap();
    let one_two = pair.hash(&vec![FieldElement::from_u64(1), FieldElement::from_u64(2)]).unwrap();
    let single = HashParams::new(2, 8, 53).unwrap();
    let tagged = single.tagged_hash(&vec![FieldElement::from_u64(1)], b"note_hash").unwrap();
    assert_eq!(
        one_two.to_limbs(),
        [329281648951459303, 17167608470992101340, 10209003382680944860, 1911236592067781357]
    );
    assert_eq!(
        tagged.to_limbs(),
        [3931539128527897328, 17784870373230068209, 16518014268291906620, 1758931761603009083]
    );
}
