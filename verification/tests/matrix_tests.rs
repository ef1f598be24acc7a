use matrix2d::matrix::ErrorKind;
use matrix2d::matrix::Matrix;

#[test]
fn test_new() {
    let mat = Matrix::<i32>::new(10, 8);

    assert_eq!(mat.cols(), 8);
    assert_eq!(mat.rows(), 10);
    assert_eq!(mat.size(), 80);
    assert_eq!(*mat.index((0, 0)), 0);
}

#[test]
fn test_new_size_0() {
    let mat = Matrix::<f64>::new(0, 1);
    assert_eq!(mat.size(), 0);

    let mat = Matrix::<usize>::new(100, 0);
    assert_eq!(mat.size(), 0);
}

#[test]
fn test_with_val() {
    let mat = Matrix::<&str>::with_val(2, 3, "A");

    assert_eq!(mat.cols(), 3);
    assert_eq!(mat.rows(), 2);
    assert_eq!(mat.size(), 6);
    assert_eq!(*mat.index((0, 2)), "A");
}

#[test]
#[should_panic]
fn test_out_of_bounds() {
    let mat = Matrix::<f32>::new(100, 100);
    mat.index((100, 0));
}

#[test]
fn test_get() {
    let mat = Matrix::<i32>::new(10, 10);

    assert_eq!(mat.get((0, 0)), Some(&0));
    assert_eq!(mat.get((100, 200)), None);
}

#[test]
fn test_get_mut() {
    let mut mat = Matrix::<i32>::new(10, 10);
    let x = mat.get_mut((0, 0)).unwrap();
    *x = 1;

    assert_eq!(mat.get((0, 0)), Some(&1));
    assert_eq!(mat.get_mut((100, 200)), None);
}

#[test]
fn test_set() {
    let mut mat = Matrix::<i32>::new(10, 10);
    assert_eq!(mat.set((0, 0), 10), Ok(()));
    assert_eq!(mat.get((0, 0)), Some(&10));
    assert_eq!(mat.set((100, 100), 20), Err(ErrorKind::InvalidIndex));
}

#[test]
fn test_with_val_all_elements() {
    let mat = Matrix::<i32>::with_val(3, 4, 7);

    assert_eq!(mat.size(), 12);
    for r in 0..3 {
        for c in 0..4 {
            assert_eq!(mat.get((r, c)), Some(&7));
            assert_eq!(*mat.index((r, c)), 7);
        }
    }
}

#[test]
fn test_new_all_default() {
    let mat = Matrix::<u64>::new(4, 5);

    assert_eq!(mat.size(), 20);
    for r in 0..4 {
        for c in 0..5 {
            assert_eq!(mat.get((r, c)), Some(&0));
        }
    }
}

#[test]
fn test_with_val_size_0() {
    let mat = Matrix::<i32>::with_val(0, 5, 1);
    assert_eq!(mat.size(), 0);
    assert_eq!(mat.get((0, 0)), None);

    let mat = Matrix::<i32>::with_val(5, 0, 1);
    assert_eq!(mat.size(), 0);
    assert_eq!(mat.get((0, 0)), None);
}

#[test]
fn test_set_get_round_trip() {
    let mut mat = Matrix::<i32>::new(10, 10);
    for r in 0..10 {
        for c in 0..10 {
            let v = (r * 10 + c) as i32;
            assert_eq!(mat.set((r, c), v), Ok(()));
            assert_eq!(mat.get((r, c)), Some(&v));
        }
    }
    assert_eq!(mat.get((9, 9)), Some(&99));
}

#[test]
fn test_set_out_of_bounds_preserves() {
    let mut mat = Matrix::<i32>::new(10, 10);
    for r in 0..10 {
        for c in 0..10 {
            mat.set((r, c), (r * 10 + c) as i32).unwrap();
        }
    }

    assert_eq!(mat.set((100, 100), 55), Err(ErrorKind::InvalidIndex));

    for r in 0..10 {
        for c in 0..10 {
            assert_eq!(mat.get((r, c)), Some(&((r * 10 + c) as i32)));
        }
    }
}

#[test]
fn test_column_overflow_rejected() {
    // On a 10 x 10 grid the coordinate (0, 15) linearizes to position 15,
    // which lies inside the storage; the accessors must still reject it,
    // because the column index alone is out of range.
    let mut mat = Matrix::<i32>::with_val(10, 10, 3);

    assert_eq!(mat.get((0, 15)), None);
    assert_eq!(mat.get_mut((0, 15)), None);
    assert_eq!(mat.set((0, 15), 9), Err(ErrorKind::InvalidIndex));
    assert_eq!(mat.get((1, 5)), Some(&3));
}

#[test]
fn test_get_mut_then_read_back() {
    let mut mat = Matrix::<u32>::new(3, 3);
    {
        let cell = mat.get_mut((2, 1)).unwrap();
        *cell = 42;
    }
    assert_eq!(mat.get((2, 1)), Some(&42));
    assert_eq!(mat.get((1, 2)), Some(&0));
}
