use halo2_gadgets::poseidon::primitives::{ConstantLength, Hash as PoseidonHash};
use halo2curves::bn256::Fr;
use halo2curves::ff::PrimeField;
use solvency_proof::merkle_store::MPTHasher as BufferedHasher;
use solvency_proof::{Account, ErrorKind, FieldElement, MPTHasher, MPTItem};

fn poseidon(a: &FieldElement, b: &FieldElement) -> FieldElement {
    let fa = Fr::from_repr(a.to_repr().into()).unwrap();
    let fb = Fr::from_repr(b.to_repr().into()).unwrap();
    let h = PoseidonHash::<Fr, solvency_proof::P128Pow5T3, ConstantLength<2>, 3, 2>::init().hash([fa, fb]);
    FieldElement::from_repr(h.to_repr().into()).unwrap()
}

fn item(seed: u8) -> MPTItem {
    let mut bytes = [0u8; 32];
    for i in 0..32 {
        bytes[i] = seed.wrapping_add(i as u8);
    }
    MPTItem::from_bytes(bytes)
}

#[test]
fn default_item_is_zero() {
    assert_eq!(MPTItem::default().as_ref(), &[0u8; 32][..]);
    assert_eq!(MPTItem::default(), MPTItem::from_bytes([0u8; 32]));
}

#[test]
fn item_bytes_round_trip() {
    let a = item(3);
    let v = a.into_vec();
    assert_eq!(v.len(), 32);
    assert_eq!(v[0], 3);
    assert_eq!(v[31], 34);
    assert_eq!(MPTItem::try_from_vec(v).unwrap(), a);
    assert_eq!(MPTItem::from_slice(a.as_ref()), a);
    let mut out = [0u8; 32];
    a.copy_to_slice(&mut out);
    assert_eq!(MPTItem::from_slice(&out), a);
    assert_eq!(MPTItem::try_from_array(out).unwrap(), a);
    assert_eq!(MPTItem::byte_len(), 32);
}

#[test]
fn item_from_wrong_length_fails() {
    let e = MPTItem::try_from_vec(vec![0u8; 31]).unwrap_err();
    assert_eq!(e.kind, ErrorKind::HashConversionError);
    let e = MPTItem::try_from_vec(vec![1u8; 33]).unwrap_err();
    assert_eq!(e.kind, ErrorKind::HashConversionError);
    assert!(MPTItem::try_from_vec(vec![]).is_err());
}

#[test]
fn item_of_account_is_padded_address() {
    let mut address = [0u8; 20];
    for i in 0..20 {
        address[i] = 100 + i as u8;
    }
    let account = Account { address };
    assert_eq!(account.as_bytes(), &address[..]);
    let from_account = MPTItem::from_account(&account);
    let bytes = from_account.as_ref();
    assert_eq!(&bytes[..20], &address[..]);
    assert_eq!(&bytes[20..], &[0u8; 12][..]);
    assert_eq!(MPTItem::from_address(&address), from_account);
}

#[test]
fn item_field_element_reduces() {
    let mut one = [0u8; 32];
    one[0] = 1;
    assert_eq!(MPTItem::from_bytes(one).into_field(), FieldElement::from_raw([1, 0, 0, 0]));
    let max = MPTItem::from_bytes([255u8; 32]).into_field();
    assert_eq!(max, FieldElement::from_raw([u64::MAX; 4]));
    assert_eq!(max.to_repr()[31], 14);
}

#[test]
fn hash_of_two_items_is_poseidon_of_their_fields() {
    let a = item(1);
    let b = item(77);
    let mut data = a.into_vec();
    data.extend_from_slice(b.as_ref());
    let h = MPTHasher::hash(&data);
    let expected = poseidon(&a.into_field(), &b.into_field());
    assert_eq!(h, MPTItem::from_bytes(expected.to_repr()));
    assert_ne!(h, a);
    assert_eq!(MPTHasher::hash_size(), 32);
}

#[test]
fn hash_of_one_item_pairs_it_with_zero() {
    let a = item(9);
    let h = MPTHasher::hash(a.as_ref());
    let expected = poseidon(&a.into_field(), &FieldElement::zero());
    assert_eq!(h.as_ref(), &expected.to_repr()[..]);
    let mut padded = a.into_vec();
    padded.extend_from_slice(&[0u8; 32]);
    assert_eq!(MPTHasher::hash(&padded), h);
}

#[test]
fn hashed_item_reads_back_as_its_hash() {
    let h = poseidon(&FieldElement::zero(), &FieldElement::zero());
    let node = MPTItem::from_bytes(h.to_repr());
    assert_eq!(node.into_field(), h);
}

#[test]
fn buffered_hasher_agrees_with_the_tree_hasher() {
    let a = item(5);
    let b = item(200);
    let mut data = a.into_vec();
    data.extend_from_slice(b.as_ref());
    let mut hasher = BufferedHasher::new();
    hasher.write(&data);
    assert_eq!(hasher.hash(), MPTHasher::hash(&data));
    assert_eq!(hasher.hash(), MPTHasher::hash(&data));
}

#[test]
fn buffered_hasher_keeps_what_is_not_overwritten() {
    let a = item(5);
    let b = item(200);
    let c = item(60);
    let mut data = a.into_vec();
    data.extend_from_slice(b.as_ref());
    let mut hasher = BufferedHasher::default();
    hasher.write(&data);
    hasher.write(c.as_ref());
    let mut expected = c.into_vec();
    expected.extend_from_slice(b.as_ref());
    assert_eq!(hasher.hash(), MPTHasher::hash(&expected));
}

#[test]
fn fresh_buffered_hasher_hashes_zeros() {
    let mut hasher = BufferedHasher::new();
    assert_eq!(hasher.hash(), MPTHasher::hash(&[0u8; 64]));
}

#[test]
fn hash_outputs_are_canonical_field_encodings() {
    let data = [255u8; 64];
    let h = MPTHasher::hash(&data);
    let mut bytes = [0u8; 32];
    h.copy_to_slice(&mut bytes);
    assert!(FieldElement::from_repr(bytes).is_some());
    let mut hasher = BufferedHasher::new();
    hasher.write(&data);
    let mut bytes2 = [0u8; 32];
    hasher.hash().copy_to_slice(&mut bytes2);
    assert!(FieldElement::from_repr(bytes2).is_some());
}
