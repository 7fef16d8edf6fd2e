use wavemorse::stack::{IsStack, MyStack};

#[test]
fn can_push() {
    let mut uut = MyStack::new();
    uut.push(1);
    assert_eq!(uut.size(), 1);
}

#[test]
fn initialised_empty() {
    let uut: MyStack<i32> = MyStack::new();
    assert_eq!(uut.size(), 0);
}

#[test]
fn can_pop() {
    let mut uut = MyStack::new();
    uut.push(5);
    let v = uut.pop();
    assert!(uut.is_empty());
    assert_eq!(v.unwrap(), 5);
}

#[test]
fn can_peek() {
    let mut uut = MyStack::new();
    uut.push(5);
    let v = uut.peek();
    assert_eq!(5, *v.unwrap());
    assert_eq!(uut.size(), 1);
}

#[test]
fn can_contain_other_data_types() {
    let mut uut: MyStack<f32> = MyStack::new();
    uut.push(30.3);
    assert_eq!(*uut.peek().unwrap(), 30.3);
}
