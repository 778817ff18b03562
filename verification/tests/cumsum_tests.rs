use cumsum::{cumsum, cumsum_array, cumsum_array_owned, cumsum_owned, Accumulate};
use std::ops::Add;

#[test]
fn test() {
    assert_eq!(cumsum::<i32>(&[]), []);
    assert_eq!(cumsum(&[1]), [1]);
    assert_eq!(cumsum(&[1, 2, 3]), [1, 3, 6]);

    assert_eq!(cumsum_owned::<i32>(vec![]), vec![]);
    assert_eq!(cumsum_owned(vec![1]), vec![1]);
    assert_eq!(cumsum_owned(vec![1, 2, 3]), vec![1, 3, 6]);

    assert_eq!(cumsum_array::<i32, 0>(&[]), []);
    assert_eq!(cumsum_array(&[1]), [1]);
    assert_eq!(cumsum_array(&[1, 2, 3]), [1, 3, 6]);

    assert_eq!(cumsum_array_owned::<i32, 0>([]), []);
    assert_eq!(cumsum_array_owned([1]), [1]);
    assert_eq!(cumsum_array_owned([1, 2, 3]), [1, 3, 6]);
}

#[test]
fn empty_input_gives_empty_output() {
    assert_eq!(cumsum::<u64>(&[]), Vec::<u64>::new());
    assert_eq!(cumsum_owned::<u64>(Vec::new()), Vec::<u64>::new());
    assert_eq!(cumsum_array::<u64, 0>(&[]), [0u64; 0]);
    assert_eq!(cumsum_array_owned::<u64, 0>([]), [0u64; 0]);
}

#[test]
fn singleton_is_returned_as_it_is() {
    assert_eq!(cumsum(&[-7i64]), vec![-7i64]);
    assert_eq!(cumsum_owned(vec![-7i64]), vec![-7i64]);
    assert_eq!(cumsum_array(&[-7i64]), [-7i64]);
    assert_eq!(cumsum_array_owned([-7i64]), [-7i64]);
}

#[test]
fn singleton_at_the_edge_of_the_type_needs_no_addition() {
    assert_eq!(cumsum(&[u8::MAX]), vec![u8::MAX]);
    assert_eq!(cumsum_owned(vec![i8::MIN]), vec![i8::MIN]);
    assert_eq!(cumsum_array(&[i128::MAX]), [i128::MAX]);
    assert_eq!(cumsum_array_owned([usize::MAX]), [usize::MAX]);
}

#[test]
fn four_elements() {
    assert_eq!(cumsum(&[1, 2, 3, 4]), vec![1, 3, 6, 10]);
    assert_eq!(cumsum_owned(vec![1, 2, 3, 4]), vec![1, 3, 6, 10]);
    assert_eq!(cumsum_array(&[1, 2, 3, 4]), [1, 3, 6, 10]);
    assert_eq!(cumsum_array_owned([1, 2, 3, 4]), [1, 3, 6, 10]);
}

#[test]
fn negative_elements_make_the_sums_go_down() {
    assert_eq!(cumsum(&[5, -3, 2]), vec![5, 2, 4]);
    assert_eq!(cumsum_owned(vec![5, -3, 2]), vec![5, 2, 4]);
    assert_eq!(cumsum_array(&[5, -3, 2]), [5, 2, 4]);
    assert_eq!(cumsum_array_owned([5, -3, 2]), [5, 2, 4]);
}

#[test]
fn each_element_is_its_predecessor_plus_the_input() {
    let x: [i64; 6] = [4, -9, 0, 13, -2, 7];
    let y = cumsum(&x);
    assert_eq!(y.len(), x.len());
    assert_eq!(y[0], x[0]);
    for i in 1..x.len() {
        assert_eq!(y[i], y[i - 1] + x[i]);
    }
    let z = cumsum_array(&x);
    assert_eq!(z[0], x[0]);
    for i in 1..x.len() {
        assert_eq!(z[i], z[i - 1] + x[i]);
    }
}

#[test]
fn each_element_is_the_sum_of_the_inputs_up_to_it() {
    let x: [u32; 5] = [3, 1, 4, 1, 5];
    let y = cumsum_array(&x);
    for i in 0..x.len() {
        let mut total: u32 = x[0];
        for j in 1..=i {
            total = total + x[j];
        }
        assert_eq!(y[i], total);
    }
    assert_eq!(y, [3, 4, 8, 9, 14]);
}

#[test]
fn borrowed_input_is_left_as_it_was() {
    let v: Vec<i32> = vec![10, 20, 30];
    let y = cumsum(&v);
    assert_eq!(v, vec![10, 20, 30]);
    assert_eq!(y, vec![10, 30, 60]);

    let a: [i32; 3] = [10, 20, 30];
    let b = cumsum_array(&a);
    assert_eq!(a, [10, 20, 30]);
    assert_eq!(b, [10, 30, 60]);
}

#[test]
fn in_place_matches_borrowed_on_integers() {
    let x: Vec<i16> = vec![7, -7, 100, -250, 31, 0, 2];
    let borrowed = cumsum(&x);
    let in_place = cumsum_owned(x.clone());
    assert_eq!(in_place, borrowed);
    assert_eq!(borrowed, vec![7, 0, 100, -150, -119, -119, -117]);

    let a: [u16; 4] = [1, 10, 100, 1000];
    assert_eq!(cumsum_array_owned(a), cumsum_array(&a));
    assert_eq!(cumsum_array(&a), [1, 11, 111, 1111]);
}

#[test]
fn output_is_as_long_as_the_input() {
    for n in 0..20usize {
        let x: Vec<u64> = (0..n as u64).collect();
        assert_eq!(cumsum(&x).len(), n);
        assert_eq!(cumsum_owned(x).len(), n);
    }
    let a: [u8; 7] = [1; 7];
    let b: [u8; 7] = cumsum_array(&a);
    let c: [u8; 7] = cumsum_array_owned(a);
    assert_eq!(b, [1, 2, 3, 4, 5, 6, 7]);
    assert_eq!(c, [1, 2, 3, 4, 5, 6, 7]);
}

#[test]
fn sums_may_reach_the_largest_value() {
    assert_eq!(cumsum(&[200u8, 50, 5]), vec![200u8, 250, 255]);
    assert_eq!(cumsum_owned(vec![i8::MIN, 0, 127]), vec![i8::MIN, i8::MIN, -1]);
    assert_eq!(cumsum_array(&[u64::MAX - 1, 1]), [u64::MAX - 1, u64::MAX]);
    assert_eq!(cumsum_array_owned([i32::MAX, -1, 1]), [i32::MAX, i32::MAX - 1, i32::MAX]);
}

#[test]
fn every_primitive_integer_is_an_element_type() {
    assert_eq!(cumsum_owned(vec![1u8, 2, 3]), vec![1u8, 3, 6]);
    assert_eq!(cumsum_owned(vec![1u16, 2, 3]), vec![1u16, 3, 6]);
    assert_eq!(cumsum_owned(vec![1u32, 2, 3]), vec![1u32, 3, 6]);
    assert_eq!(cumsum_owned(vec![1u64, 2, 3]), vec![1u64, 3, 6]);
    assert_eq!(cumsum_owned(vec![1u128, 2, 3]), vec![1u128, 3, 6]);
    assert_eq!(cumsum_owned(vec![1usize, 2, 3]), vec![1usize, 3, 6]);
    assert_eq!(cumsum(&[1i8, -2, 3]), vec![1i8, -1, 2]);
    assert_eq!(cumsum(&[1i16, -2, 3]), vec![1i16, -1, 2]);
    assert_eq!(cumsum(&[1i32, -2, 3]), vec![1i32, -1, 2]);
    assert_eq!(cumsum(&[1i64, -2, 3]), vec![1i64, -1, 2]);
    assert_eq!(cumsum(&[1i128, -2, 3]), vec![1i128, -1, 2]);
    assert_eq!(cumsum(&[1isize, -2, 3]), vec![1isize, -1, 2]);
}

#[test]
fn add_ref_and_accumulate_are_the_integer_sum() {
    let a: i32 = 40;
    let b: i32 = 2;
    assert_eq!(a.add_ref(&b), 42);
    assert_eq!(a, 40);
    let mut c: u64 = 40;
    c.accumulate(&2);
    assert_eq!(c, 42);
}

/// A word under concatenation: an addition that does not commute.
#[derive(Clone, Debug, PartialEq)]
struct Word(String);

impl Add for Word {
    type Output = Word;

    fn add(self, rhs: Word) -> Word {
        Word(format!("{}{}", self.0, rhs.0))
    }
}

impl Accumulate for Word {
    fn add_ref(&self, rhs: &Word) -> Word {
        Word(format!("{}{}", self.0, rhs.0))
    }

    fn accumulate(&mut self, rhs: &Word) {
        self.0.push_str(&rhs.0);
    }
}

fn words(parts: &[&str]) -> Vec<Word> {
    parts.iter().map(|p| Word(p.to_string())).collect()
}

#[test]
fn borrowed_sum_puts_the_total_on_the_left() {
    let x = words(&["a", "b", "c"]);
    assert_eq!(cumsum(&x), words(&["a", "ab", "abc"]));
    assert_eq!(x, words(&["a", "b", "c"]));
}

#[test]
fn in_place_sum_puts_the_slot_on_the_left() {
    let x = words(&["a", "b", "c"]);
    assert_eq!(cumsum_owned(x), words(&["a", "ba", "cba"]));
    let a = [Word("x".to_string()), Word("y".to_string())];
    assert_eq!(cumsum_array_owned(a), [Word("x".to_string()), Word("yx".to_string())]);
}
