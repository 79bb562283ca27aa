use fenix::memory::vec::Vec;

#[test]
fn vec_push_pop() {
    let mut v: Vec<u32> = Vec::new();
    v.push(1);
    v.push(2);
    assert_eq!(v.pop(), Some(2));
    assert_eq!(v.pop(), Some(1));
    assert_eq!(v.pop(), None);
}
