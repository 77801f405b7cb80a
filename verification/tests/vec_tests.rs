use baselibs::fixed_capacity_vec::FixedCapacityVec;

#[test]
fn vec_push_and_pop() {
    fn run_test(n: usize) {
        let mut vector = FixedCapacityVec::<i64>::new(n);
        let mut control = vec![];

        let result = vector.pop();
        assert_eq!(result, None);

        for i in 0..n {
            let value = i as i64 * 123 + 456;
            let result = vector.push(value);
            assert_eq!(*result.unwrap(), value);
            control.push(value);
            assert_eq!(vector.as_slice(), control);
        }

        let result = vector.push(123456);
        assert!(result.is_err());

        for _ in 0..n {
            let expected = control.pop().unwrap();
            let actual = vector.pop();
            assert_eq!(actual, Some(expected));
        }

        let result = vector.pop();
        assert_eq!(result, None);
    }

    for i in 0..6 {
        run_test(i);
    }
}

#[test]
fn vec_is_full_and_is_empty() {
    fn run_test(n: usize) {
        let mut vector = FixedCapacityVec::<i64>::new(n);
        assert!(vector.is_empty());

        for i in 0..n {
            assert!(!vector.is_full());
            vector.push(i as i64 * 123 + 456).unwrap();
            assert!(!vector.is_empty());
        }

        assert!(vector.is_full());

        for _ in 0..n {
            assert!(!vector.is_empty());
            vector.pop();
            assert!(!vector.is_full());
        }

        assert!(vector.is_empty());
    }

    for i in 0..6 {
        run_test(i);
    }
}

#[test]
fn vec_full_scenario() {
    let mut vector = FixedCapacityVec::<i64>::new(5);
    for i in 0..5 {
        vector.push(i as i64).unwrap();
    }
    assert!(vector.is_full());
    let result = vector.push(5);
    assert!(result.is_err());
    assert_eq!(vector.len(), 5);
    assert_eq!(vector.as_slice(), vec![0, 1, 2, 3, 4]);
}

#[test]
fn vec_try_new() {
    let vector = FixedCapacityVec::<u8>::try_new(7);
    assert!(vector.is_some());
    assert_eq!(vector.unwrap().capacity(), 7);

    let too_big = FixedCapacityVec::<u8>::try_new(u32::MAX as usize + 1);
    assert!(too_big.is_none());
}

#[test]
fn vec_clear() {
    let mut vector = FixedCapacityVec::<String>::new(3);
    vector.push(String::from("a")).unwrap();
    vector.push(String::from("b")).unwrap();
    assert_eq!(vector.len(), 2);
    vector.clear();
    assert!(vector.is_empty());
    assert_eq!(vector.capacity(), 3);
    vector.push(String::from("c")).unwrap();
    assert_eq!(vector.len(), 1);
}

#[test]
fn vec_get_and_get_mut() {
    let mut vector = FixedCapacityVec::<String>::new(3);
    vector.push(String::from("a")).unwrap();
    vector.push(String::from("b")).unwrap();

    assert_eq!(vector.get(0), Some(&String::from("a")));
    assert_eq!(vector.get(1), Some(&String::from("b")));
    assert_eq!(vector.get(2), None);

    *vector.get_mut(1).unwrap() = String::from("c");
    assert_eq!(vector.get(1), Some(&String::from("c")));
    assert_eq!(vector.get_mut(5), None);
}
