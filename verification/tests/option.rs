use chain_ext::option::{OptionExt, OptionWrapExt};

#[test]
fn test_or_ok() {
    assert_eq!(None::<i32>.or_ok::<i32>(Ok(10)), Some(10));
    assert_eq!(None::<i32>.or_ok(Err(10)), None);
    assert_eq!(Some(9).or_ok::<i32>(Ok(10)), Some(9));
    assert_eq!(Some(9).or_ok(Err(1)), Some(9));
}

#[test]
fn test_or_wrap() {
    assert_eq!(None::<i32>.or_wrap(10), Some(10));
    assert_eq!(Some(9).or_wrap(10), Some(9));
}

#[test]
fn test_some() {
    assert_eq!(Some(10), 10.wrap_some());
    assert_eq!(Some(10), Ok::<i32, i32>(10).ok());
}

#[test]
fn test_pair() {
    assert_eq!(Some(10).pair(Some(20u32)), Some((10, 20u32)));
    assert_eq!(None::<i32>.pair(Some(20u32)), None);
    assert_eq!(Some(10).pair(None::<u32>), None);
    assert_eq!(None::<i32>.pair(None::<u32>), None);
}
