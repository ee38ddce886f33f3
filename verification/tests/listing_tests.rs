use chat_backend::error::StoreError;
use chat_backend::listing::keep_present;
use chat_backend::listing::keep_read;
use chat_backend::listing::read_all;

#[test]
fn keep_present_keeps_the_values_in_order() {
    assert_eq!(keep_present(vec![Some(1u8), None, Some(3), None, None, Some(6)]), vec![1u8, 3, 6]);
    assert!(keep_present::<u8>(vec![]).is_empty());
    assert!(keep_present::<u8>(vec![None, None]).is_empty());
}

#[test]
fn keep_read_skips_what_failed() {
    assert_eq!(keep_read(vec![Ok(1u8), Err(StoreError), Ok(3)]), vec![1u8, 3]);
    assert!(keep_read::<u8>(vec![Err(StoreError)]).is_empty());
    assert!(keep_read::<u8>(vec![]).is_empty());
}

#[test]
fn read_all_is_all_or_nothing() {
    assert_eq!(read_all(vec![Ok(1u8), Ok(2), Ok(3)]), Some(vec![1u8, 2, 3]));
    assert_eq!(read_all::<u8>(vec![]), Some(Vec::<u8>::new()));
    assert_eq!(read_all(vec![Ok(1u8), Err(StoreError), Ok(3)]), None);
    assert_eq!(read_all(vec![Err(StoreError), Ok(3u8)]), None);
    assert_eq!(read_all(vec![Ok(3u8), Err(StoreError)]), None);
}
