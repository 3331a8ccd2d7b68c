#[test]
fn it_works() {
    let result = yaaarc::add(2, 2);
    assert_eq!(result, 4);
}

#[test]
fn add_near_the_top_of_the_range() {
    assert_eq!(yaaarc::add(u64::MAX - 1, 1), u64::MAX);
    assert_eq!(yaaarc::add(0, 0), 0);
}
