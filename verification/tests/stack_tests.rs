#![allow(non_snake_case)]

use bounded_collections::stack::Stack;

#[test]
fn Initialize_without_capacity() {
    let target = Stack::<i32>::new();
    let result = Stack {
        data: Vec::<i32>::new(),
        capacity: None,
    };
    assert_eq!(result, target);
    let result = 0;
    assert_eq!(result, target.len());
}

#[test]
fn Initialize_with_capacity() {
    let target = Stack::<i32>::with_capacity(10);
    let result = Stack {
        data: Vec::<i32>::with_capacity(10),
        capacity: Some(10),
    };
    assert_eq!(result, target);
    let result = 0;
    assert_eq!(result, target.len());
}

#[test]
fn Push_element_to_empty_stack() {
    let mut target = Stack::<i32>::new();
    let result = Ok(1);
    assert_eq!(result, target.push(1));
    let result = Stack {
        data: vec![1],
        capacity: None,
    };
    assert_eq!(result, target);
}

#[test]
fn Push_element_to_fulled_stack() {
    let mut target = Stack::<i32>::with_capacity(10);
    for i in 0..10 {
        let _ = target.push(i);
    }
    let result = Err("The stack is full");
    assert_eq!(result, target.push(10));
    let result = 10;
    assert_eq!(result, target.len());
}

#[test]
fn Force_push_element_to_full_stack() {
    let mut target = Stack::<i32>::with_capacity(10);
    for i in 0..10 {
        let _ = target.push(i);
    }
    let result = 10;
    assert_eq!(result, target.force_push(10));
    let result = Stack {
        data: vec![0, 1, 2, 3, 4, 5, 6, 7, 8, 10],
        capacity: Some(10),
    };
    assert_eq!(result, target);
}

#[test]
fn Stack_is_empty() {
    let target = Stack::<i32>::new();
    let result = true;
    assert_eq!(result, target.is_empty());
}

#[test]
fn Stack_is_not_empty() {
    let mut target = Stack::<i32>::with_capacity(10);
    let _ = target.push(1);
    let result = false;
    assert_eq!(result, target.is_empty());
}

#[test]
fn Pop_element_from_empty_stack() {
    let mut target = Stack::<i32>::new();
    let result = Err("The stack is empty");
    assert_eq!(result, target.pop());
    let result = 0;
    assert_eq!(result, target.len());
}

#[test]
fn Pop_element_from_full_stack() {
    let mut target = Stack::<i32>::with_capacity(10);
    for i in 0..10 {
        let _ = target.push(i);
    }
    let result = 9;
    assert_eq!(result, target.pop().unwrap());
    let result: usize = 9;
    assert_eq!(result, target.len());
}

#[test]
fn Peek_element_from_empty_stack() {
    let target = Stack::<i32>::new();
    let result = None;
    assert_eq!(result, target.peek());
    let result = 0;
    assert_eq!(result, target.len());
}

#[test]
fn Peek_element_from_stack() {
    let mut target = Stack::<i32>::with_capacity(10);
    for i in 0..10 {
        let _ = target.push(i);
    }
    let result = 9;
    assert_eq!(&result, target.peek().unwrap());
    let result = 10;
    assert_eq!(result, target.len());
}

#[test]
fn Set_capacity_of_none_capacity_empty_stack() {
    let mut target = Stack::<i32>::new();
    let result = Ok(Some(10));
    assert_eq!(result, target.set_capacity(Some(10)));
    let result = Stack {
        data: Vec::<i32>::with_capacity(10),
        capacity: Some(10),
    };
    assert_eq!(result, target);
}

#[test]
fn Set_capacity_of_empty_stack_to_none() {
    let mut target = Stack::<i32>::with_capacity(10);
    let result = Ok(None);
    assert_eq!(result, target.set_capacity(None));
    let result = Stack {
        data: Vec::<i32>::new(),
        capacity: None,
    };
    assert_eq!(result, target);
}

#[test]
fn Set_capacity_of_stack_to_none() {
    let mut target = Stack::<i32>::with_capacity(10);
    let _ = target.push(1);
    let result = Ok(None);
    assert_eq!(result, target.set_capacity(None));
    let result = Stack {
        data: vec![1],
        capacity: None,
    };
    assert_eq!(result, target);
}

#[test]
fn Set_capacity_too_small() {
    let mut target = Stack::<i32>::new();
    for i in 0..10 {
        let _ = target.push(i);
    }
    let result = Err("The capacity is too small");
    assert_eq!(result, target.set_capacity(Some(5)));
    let result = Stack {
        data: vec![0, 1, 2, 3, 4, 5, 6, 7, 8, 9],
        capacity: None,
    };
    assert_eq!(result, target);
}

#[test]
fn Force_to_set_capacity_too_small() {
    let mut target = Stack::<i32>::new();
    for i in 0..10 {
        let _ = target.push(i);
    }
    let result = Some(5);
    assert_eq!(result, target.force_set_capacity(Some(5)));
    let result = Stack {
        data: vec![0, 1, 2, 3, 4],
        capacity: Some(5),
    };
    assert_eq!(result, target);
}

#[test]
fn Get_the_size_of_stack() {
    let mut target = Stack::<i32>::new();
    for i in 0..10 {
        let _ = target.push(i);
    }
    let result = 10;
    assert_eq!(result, target.len());
}
