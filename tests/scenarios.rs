use mononym::{with_seed, Exists, HasType, Named, Seed, Witness};

struct LessThanEq;
struct NonZero;

fn check_less_than_eq<N: HasType<u32>>(
    x: &Named<N, u32>,
    y: &Named<N, u32>,
) -> Option<Witness<LessThanEq, N>> {
    if x.value() <= y.value() {
        Some(Witness::new(&LessThanEq, &vec![x.ident(), y.ident()]))
    } else {
        None
    }
}

fn check_non_zero<N: HasType<u32>>(x: &Named<N, u32>) -> Option<Witness<NonZero, N>> {
    if *x.value() != 0 {
        Some(Witness::new(&NonZero, &vec![x.ident()]))
    } else {
        None
    }
}

fn to_percentage<N: HasType<u32>>(
    x: &Named<N, u32>,
    y: &Named<N, u32>,
    _x_le_y: &Witness<LessThanEq, N>,
    _y_non_zero: &Witness<NonZero, N>,
) -> f64 {
    let x: f64 = (*x.value()).into();
    let y: f64 = (*y.value()).into();
    x / y * 100.0
}

#[test]
fn percentage_of_two_and_four() {
    let percent = with_seed(|seed| {
        let (s1, s2) = seed.replicate();
        let x = s1.new_named(2u32);
        let y = s2.new_named(4u32);
        let x_le_y = check_less_than_eq(&x, &y).expect("2 <= 4");
        assert!(check_less_than_eq(&y, &x).is_none());
        let y_non_zero = check_non_zero(&y).expect("4 != 0");
        to_percentage(&x, &y, &x_le_y, &y_non_zero)
    });
    assert_eq!(percent, 50.0);
}

#[test]
fn less_than_eq_is_deterministic() {
    with_seed(|seed| {
        let (s1, s2) = seed.replicate();
        let x = s1.new_named(2u32);
        let y = s2.new_named(4u32);
        for _ in 0..3 {
            assert!(check_less_than_eq(&x, &y).is_some());
            assert!(check_less_than_eq(&y, &x).is_none());
        }
    });
}

#[test]
fn zero_has_no_non_zero_witness() {
    with_seed(|seed| {
        let z = seed.new_named(0u32);
        assert!(check_non_zero(&z).is_none());
    });
}

struct ListHasSize;
struct ListHasPositives;
struct GreaterThanHalf;
struct GreaterThanHalfPositive;
struct NonEmpty;
struct SortedFrom;

fn list_size<N: HasType<Vec<i64>> + HasType<usize>>(
    seed: Seed<N>,
    list: &Named<N, Vec<i64>>,
) -> Exists<N, usize, ListHasSize> {
    Exists::new_exists(seed, list.value().len(), &ListHasSize, &vec![list.ident()])
}

fn count_positive<N: HasType<Vec<i64>> + HasType<usize>>(
    seed: Seed<N>,
    list: &Named<N, Vec<i64>>,
) -> Exists<N, usize, ListHasPositives> {
    let count = list.value().iter().filter(|x| **x > 0).count();
    Exists::new_exists(seed, count, &ListHasPositives, &vec![list.ident()])
}

fn greater_than_half<N: HasType<usize>>(
    count: &Named<N, usize>,
    size: &Named<N, usize>,
) -> Option<Witness<GreaterThanHalf, N>> {
    if count.value() * 2 > *size.value() {
        Some(Witness::new(&GreaterThanHalf, &vec![count.ident(), size.ident()]))
    } else {
        None
    }
}

fn greater_than_half_positive<N: HasType<usize>>(
    _size: &Witness<ListHasSize, N>,
    _positives: &Witness<ListHasPositives, N>,
    _half: &Witness<GreaterThanHalf, N>,
    list: &Named<N, Vec<i64>>,
) -> Witness<GreaterThanHalfPositive, N>
where
    N: HasType<Vec<i64>>,
{
    Witness::new(&GreaterThanHalfPositive, &vec![list.ident()])
}

fn process_static<N: HasType<Vec<i64>>>(
    _list: &Named<N, Vec<i64>>,
    _greater: &Witness<GreaterThanHalfPositive, N>,
) -> i64 {
    0
}

#[derive(Debug, PartialEq, Eq)]
enum ProcessError {
    LessThanHalfPositive,
}

fn process_data(data: Vec<i64>) -> Result<i64, ProcessError> {
    with_seed(move |seed| {
        let (s1, s2, s3) = seed.replicate_3();
        let list = s1.new_named(data);
        let (size, size_proof) = list_size(s2, &list).into_parts();
        let (count, count_proof) = count_positive(s3, &list).into_parts();
        let half = greater_than_half(&count, &size).ok_or(ProcessError::LessThanHalfPositive)?;
        let proof = greater_than_half_positive(&size_proof, &count_proof, &half, &list);
        Ok(process_static(&list, &proof))
    })
}

#[test]
fn more_than_half_positive_list_is_processed() {
    assert_eq!(process_data(vec![3, 2, 1, 0, -1]), Ok(0));
}

#[test]
fn exactly_half_positive_list_is_refused() {
    assert_eq!(process_data(vec![3, 2, 1, 0, -1, -2]), Err(ProcessError::LessThanHalfPositive));
}

#[test]
fn positive_count_and_size_of_a_list() {
    with_seed(|seed| {
        let (s1, s2, s3) = seed.replicate_3();
        let list = s1.new_named(vec![3i64, 2, 1, 0, -1]);
        let (size, _) = list_size(s2, &list).into_parts();
        let (count, _) = count_positive(s3, &list).into_parts();
        assert_eq!(*size.value(), 5);
        assert_eq!(*count.value(), 3);
    });
}

fn sort_list<N: HasType<Vec<i64>>>(
    seed: Seed<N>,
    list: Named<N, Vec<i64>>,
) -> Exists<N, Vec<i64>, SortedFrom> {
    let old = list.ident();
    let mut values = list.into_value();
    values.sort();
    Exists::new_exists(seed, values, &SortedFrom, &vec![old])
}

fn size_after_sort<N: HasType<Vec<i64>> + HasType<usize>>(
    _size: Witness<ListHasSize, N>,
    _sorted: &Witness<SortedFrom, N>,
    sorted_list: &Named<N, Vec<i64>>,
    size: &Named<N, usize>,
) -> Witness<ListHasSize, N> {
    Witness::new(&ListHasSize, &vec![size.ident(), sorted_list.ident()])
}

fn non_empty_after_sort<N: HasType<Vec<i64>>>(
    _non_empty: Witness<NonEmpty, N>,
    _sorted: &Witness<SortedFrom, N>,
    sorted_list: &Named<N, Vec<i64>>,
) -> Witness<NonEmpty, N> {
    Witness::new(&NonEmpty, &vec![sorted_list.ident()])
}

fn check_non_empty<N: HasType<Vec<i64>>>(list: &Named<N, Vec<i64>>) -> Option<Witness<NonEmpty, N>> {
    if list.value().is_empty() {
        None
    } else {
        Some(Witness::new(&NonEmpty, &vec![list.ident()]))
    }
}

fn minimum<N: HasType<Vec<i64>>>(list: &Named<N, Vec<i64>>, _non_empty: &Witness<NonEmpty, N>) -> i64 {
    list.value()[0]
}

#[test]
fn sorting_transfers_size_and_non_emptiness() {
    let (min, size) = with_seed(|seed| {
        let (s1, s2, s3) = seed.replicate_3();
        let list = s1.new_named(vec![5i64, -2, 9, 0]);
        let (size, size_proof) = list_size(s2, &list).into_parts();
        let non_empty = check_non_empty(&list).expect("list has elements");
        let (sorted, sorted_proof) = sort_list(s3, list).into_parts();
        let sorted_size = size_after_sort(size_proof, &sorted_proof, &sorted, &size);
        let sorted_non_empty = non_empty_after_sort(non_empty, &sorted_proof, &sorted);
        let _: &Witness<ListHasSize, _> = &sorted_size;
        (minimum(&sorted, &sorted_non_empty), size.into_value())
    });
    assert_eq!(min, -2);
    assert_eq!(size, 4);
}
