use extobj::{DynObj, Obj, ObjInner, UnsafeObj};
use std::cell::Cell;
use std::rc::Rc;

#[test]
fn obj_get() {
    let mut obj = ObjInner::new::<&str>("hello");

    assert_eq!(*obj.get_unchecked::<&str>(), "hello");
    assert_eq!(*obj.get_unchecked_mut::<&str>(), "hello");
    assert_eq!(obj.into_inner_unchecked::<&str>(), "hello");
}

/// Counts how often a value of it was dropped.
struct Counted(Rc<Cell<usize>>);

impl Drop for Counted {
    fn drop(&mut self) {
        self.0.set(self.0.get() + 1);
    }
}

#[test]
fn unsafe_obj_borrow_after_new() {
    let mut obj = UnsafeObj::new(vec![1u8, 2, 3]);
    assert_eq!(*obj.get_unchecked::<Vec<u8>>(), vec![1, 2, 3]);
    obj.get_unchecked_mut::<Vec<u8>>().push(4);
    assert_eq!(*obj.get_unchecked::<Vec<u8>>(), vec![1, 2, 3, 4]);
    assert_eq!(obj.into_inner_unchecked::<Vec<u8>>(), vec![1, 2, 3, 4]);
}

#[test]
fn unsafe_obj_drops_its_value_once() {
    let drops = Rc::new(Cell::new(0));
    {
        let _obj = UnsafeObj::new(Counted(drops.clone()));
        assert_eq!(drops.get(), 0);
    }
    assert_eq!(drops.get(), 1);
}

#[test]
fn unsafe_obj_round_trip_does_not_drop_twice() {
    let drops = Rc::new(Cell::new(0));
    let obj = UnsafeObj::new(Counted(drops.clone()));
    let back = obj.into_inner_unchecked::<Counted>();
    assert_eq!(drops.get(), 0);
    drop(back);
    assert_eq!(drops.get(), 1);
}

#[test]
fn obj_inner_mutation_is_seen() {
    let mut obj = ObjInner::new(10i64);
    *obj.get_unchecked_mut::<i64>() += 5;
    assert_eq!(*obj.get_unchecked::<i64>(), 15);
    assert_eq!(obj.into_inner_unchecked::<i64>(), 15);
}

#[test]
fn obj_answers_only_to_its_type() {
    let mut obj = Obj::new(7u32);
    assert_eq!(obj.try_get::<u32>(), Some(&7));
    assert_eq!(obj.try_get::<u64>(), None);
    assert_eq!(obj.try_get::<i32>(), None);
    assert_eq!(obj.try_get_mut::<String>(), None);
    *obj.try_get_mut::<u32>().unwrap() = 8;
    assert_eq!(obj.try_get::<u32>(), Some(&8));
}

#[test]
fn obj_try_into_inner_hands_the_cell_back() {
    let obj = Obj::new(String::from("kept"));
    let obj = match obj.try_into_inner::<u8>() {
        Ok(_) => panic!("a String is no u8"),
        Err(back) => back,
    };
    assert_eq!(obj.try_get::<String>().map(|s| s.as_str()), Some("kept"));
    match obj.try_into_inner::<String>() {
        Ok(s) => assert_eq!(s, "kept"),
        Err(_) => panic!("the cell holds a String"),
    }
}

#[test]
fn obj_wrong_type_does_not_drop() {
    let drops = Rc::new(Cell::new(0));
    let obj = Obj::new(Counted(drops.clone()));
    let obj = match obj.try_into_inner::<u8>() {
        Ok(_) => panic!("a Counted is no u8"),
        Err(back) => back,
    };
    assert_eq!(drops.get(), 0);
    drop(obj);
    assert_eq!(drops.get(), 1);
}

#[test]
fn dyn_obj_get_after_new() {
    let obj = DynObj::new(42u32);
    assert_eq!(*obj.get::<u32>(), 42);
}

#[test]
fn dyn_obj_get_mut_then_into_inner() {
    let mut obj = DynObj::new(String::from("hello"));
    obj.get_mut::<String>().push_str(" world");
    assert_eq!(obj.into_inner::<String>(), "hello world");
}

#[test]
fn dyn_obj_into_inner_vec() {
    let obj = DynObj::new(vec![1, 2]);
    let v: Vec<i32> = obj.into_inner();
    assert_eq!(v, [1, 2]);
}

fn assert_send_sync<T: Send + Sync>(_: &T) {}

#[test]
fn dyn_obj_is_send_and_sync() {
    let obj = DynObj::new(1u8);
    assert_send_sync(&obj);
}
