use std::collections::VecDeque;

use baselibs::inline_queue::InlineQueue;

fn to_vec((first, second): (Vec<i64>, Vec<i64>)) -> Vec<i64> {
    let mut elements = first;
    elements.extend_from_slice(&second);
    elements
}

fn control_to_vec((first, second): (&[i64], &[i64])) -> Vec<i64> {
    let mut elements = first.to_vec();
    elements.extend_from_slice(second);
    elements
}

#[test]
fn inline_queue_front_and_back() {
    fn check_front_and_back<const N: usize>(
        queue: &mut InlineQueue<i64, N>,
        control: &mut VecDeque<i64>,
    ) {
        assert_eq!(queue.front(), control.front());
        assert_eq!(queue.front_mut(), control.front_mut());
        assert_eq!(queue.back(), control.back());
        assert_eq!(queue.back_mut(), control.back_mut());
    }

    fn run_test<const N: usize>() {
        let mut queue = InlineQueue::<i64, N>::new();
        let mut control = VecDeque::new();

        // Completely fill and empty the queue N times, but move the internal start point
        // ahead by one each time
        for _ in 0..N {
            check_front_and_back(&mut queue, &mut control);

            for i in 0..N {
                let value = i as i64 * 123 + 456;
                queue.push_back(value).unwrap();
                control.push_back(value);
                check_front_and_back(&mut queue, &mut control);
            }

            for _ in 0..N {
                control.pop_front().unwrap();
                queue.pop_front().unwrap();
                check_front_and_back(&mut queue, &mut control);
            }

            // One push and one pop to move the internal start point ahead
            queue.push_back(987).unwrap();
            queue.pop_front().unwrap();
            check_front_and_back(&mut queue, &mut control);
        }
    }

    run_test::<1>();
    run_test::<2>();
    run_test::<3>();
    run_test::<4>();
    run_test::<5>();
}

#[test]
fn inline_queue_push_back_and_pop_front() {
    fn run_test<const N: usize>() {
        let mut queue = InlineQueue::<i64, N>::new();
        let mut control = VecDeque::new();

        // Completely fill and empty the queue N times, but move the internal start point
        // ahead by one each time
        for _ in 0..N {
            let result = queue.pop_front();
            assert_eq!(result, None);

            for i in 0..N {
                let value = i as i64 * 123 + 456;
                let result = queue.push_back(value);
                assert_eq!(*result.unwrap(), value);
                control.push_back(value);
                assert_eq!(to_vec(queue.as_slices()), control_to_vec(control.as_slices()));
            }

            let result = queue.push_back(123456);
            assert!(result.is_err());

            for _ in 0..N {
                let expected = control.pop_front().unwrap();
                let actual = queue.pop_front();
                assert_eq!(actual, Some(expected));
            }

            let result = queue.pop_front();
            assert_eq!(result, None);

            // One push and one pop to move the internal start point ahead
            queue.push_back(987).unwrap();
            assert_eq!(queue.pop_front(), Some(987));
        }
    }

    run_test::<1>();
    run_test::<2>();
    run_test::<3>();
    run_test::<4>();
    run_test::<5>();
}

#[test]
fn inline_queue_push_front_and_pop_back() {
    fn run_test<const N: usize>() {
        let mut queue = InlineQueue::<i64, N>::new();
        let mut control = VecDeque::new();

        // Completely fill and empty the queue N times, but move the internal start point
        // ahead by one each time
        for _ in 0..N {
            let result = queue.pop_back();
            assert_eq!(result, None);

            for i in 0..N {
                let value = i as i64 * 123 + 456;
                let result = queue.push_front(value);
                assert_eq!(*result.unwrap(), value);
                control.push_front(value);
                assert_eq!(to_vec(queue.as_slices()), control_to_vec(control.as_slices()));
            }

            let result = queue.push_front(123456);
            assert!(result.is_err());

            for _ in 0..N {
                let expected = control.pop_back().unwrap();
                let actual = queue.pop_back();
                assert_eq!(actual, Some(expected));
            }

            let result = queue.pop_back();
            assert_eq!(result, None);

            // One push and one pop to move the internal start point ahead
            queue.push_front(987).unwrap();
            assert_eq!(queue.pop_back(), Some(987));
        }
    }

    run_test::<1>();
    run_test::<2>();
    run_test::<3>();
    run_test::<4>();
    run_test::<5>();
}

#[test]
fn inline_queue_is_empty_and_is_full() {
    fn run_test<const N: usize>() {
        let mut queue = InlineQueue::<i64, N>::new();

        // Completely fill and empty the queue N times, but move the internal start point
        // ahead by one each time
        for _ in 0..N {
            assert!(queue.is_empty());

            for i in 0..N {
                assert!(!queue.is_full());
                queue.push_back(i as i64 * 123 + 456).unwrap();
                assert!(!queue.is_empty());
            }

            assert!(queue.is_full());

            for _ in 0..N {
                assert!(!queue.is_empty());
                queue.pop_front();
                assert!(!queue.is_full());
            }

            assert!(queue.is_empty());

            // One push and one pop to move the internal start point ahead
            queue.push_back(987).unwrap();
            assert_eq!(queue.pop_front(), Some(987));
        }
    }

    run_test::<1>();
    run_test::<2>();
    run_test::<3>();
    run_test::<4>();
    run_test::<5>();
}

#[test]
fn inline_queue_wrap_scenario() {
    let mut queue = InlineQueue::<i64, 3>::new();
    queue.push_back(1).unwrap();
    queue.push_back(2).unwrap();
    queue.push_back(3).unwrap();
    assert!(queue.is_full());

    assert_eq!(queue.pop_front(), Some(1));
    queue.push_back(4).unwrap();
    assert_eq!(to_vec(queue.as_slices()), vec![2, 3, 4]);
}
