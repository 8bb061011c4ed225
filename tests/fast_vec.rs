use branded::{FastVec, Idx};

#[test]
fn validate_then_read_scenario() {
    FastVec::new(vec![0, 1, 2, 3], |fv: FastVec<'_, i32>| {
        let idx1 = fv.make_idx(1).unwrap();
        let idx3 = fv.make_idx(3).unwrap();
        assert!(fv.make_idx(4).is_none());
        for _ in 0..10 {
            assert_eq!(*fv.get(idx1), 1);
            assert_eq!(*fv.get(idx3), 3);
            assert_eq!(fv.get(idx1) + fv.get(idx3), 4);
        }
    });
}

#[test]
fn every_in_bounds_index_round_trips() {
    let data = vec![10u64, 20, 30, 40, 50];
    let expected = data.clone();
    FastVec::new(data, |fv: FastVec<'_, u64>| {
        for i in 0..expected.len() {
            let h = fv.make_idx(i).unwrap();
            assert_eq!(h.index(), i);
            assert_eq!(*fv.get(h), expected[i]);
        }
    });
}

#[test]
fn out_of_bounds_indices_are_rejected() {
    FastVec::new(vec!['a', 'b', 'c'], |fv: FastVec<'_, char>| {
        assert!(fv.make_idx(3).is_none());
        assert!(fv.make_idx(4).is_none());
        assert!(fv.make_idx(usize::MAX).is_none());
        assert!(fv.make_idx(2).is_some());
    });
}

#[test]
fn empty_vector_rejects_every_index() {
    let none_found = FastVec::new(Vec::<u8>::new(), |fv: FastVec<'_, u8>| {
        fv.make_idx(0).is_none() && fv.make_idx(1).is_none()
    });
    assert!(none_found);
}

#[test]
fn validating_twice_gives_the_same_handle() {
    FastVec::new(vec![7u8, 8, 9], |fv: FastVec<'_, u8>| {
        let a = fv.make_idx(2).unwrap();
        let b = fv.make_idx(2).unwrap();
        assert_eq!(a.index(), b.index());
        assert_eq!(*fv.get(a), 9);
        assert_eq!(*fv.get(b), 9);
    });
}

#[test]
fn copied_handle_reads_the_same_element() {
    FastVec::new(vec![String::from("x"), String::from("y")], |fv: FastVec<'_, String>| {
        let h: Idx<'_> = fv.make_idx(1).unwrap();
        let c = h;
        let d = h.clone();
        assert_eq!(c.index(), 1);
        assert_eq!(fv.get(c), "y");
        assert_eq!(fv.get(d), "y");
        assert_eq!(fv.get(h), "y");
    });
}

#[test]
fn fast_vec_new_returns_callback_result() {
    let total = FastVec::new(vec![1u32, 2, 3, 4], |fv: FastVec<'_, u32>| {
        let mut sum = 0u32;
        for i in 0..4 {
            sum += *fv.get(fv.make_idx(i).unwrap());
        }
        sum
    });
    assert_eq!(total, 10);
}

#[test]
fn two_vectors_validate_independently() {
    FastVec::new(vec![0, 1, 2, 3], |first: FastVec<'_, i32>| {
        FastVec::new(vec![0, 1, 2, 3], |second: FastVec<'_, i32>| {
            let h1 = first.make_idx(1).unwrap();
            let h2 = second.make_idx(1).unwrap();
            assert_eq!(*first.get(h1), 1);
            assert_eq!(*second.get(h2), 1);
        });
    });
}

#[test]
fn handle_is_as_small_as_an_index() {
    assert_eq!(core::mem::size_of::<Idx<'static>>(), core::mem::size_of::<usize>());
}
