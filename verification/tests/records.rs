use extobj::{Defs, ExtObj, Var};
use std::sync::atomic::{AtomicUsize, Ordering};

pub struct MyObj;

#[test]
fn lib_it_works() {
    let mut defs = Defs::<MyObj>::new();
    let my_prop = Var::<MyObj, i32>::__new(&mut defs);

    let mut obj = ExtObj::<MyObj>::new(&defs);

    assert_eq!(obj[my_prop], 0);

    *obj.get_mut(my_prop) = 10;

    assert_eq!(obj[my_prop], 10);
}

// Minimal sanity

pub struct TestObj;

fn test_obj_defs() -> (
    Defs<TestObj>,
    Var<TestObj, i32>,
    Var<TestObj, AtomicUsize>,
    Var<TestObj, Vec<String>>,
) {
    let mut defs = Defs::<TestObj>::new();
    let foo = Var::<TestObj, i32>::__new(&mut defs);
    let counter = Var::<TestObj, AtomicUsize>::__new(&mut defs);
    let vec = Var::<TestObj, Vec<String>>::__new(&mut defs);
    (defs, foo, counter, vec)
}

#[test]
fn default_zero() {
    let (defs, foo, _, _) = test_obj_defs();
    let o = ExtObj::<TestObj>::new(&defs);
    assert_eq!(o[foo], 0);
}

#[test]
fn index_mut() {
    let (defs, foo, _, _) = test_obj_defs();
    let mut o = ExtObj::<TestObj>::new(&defs);
    *o.get_mut(foo) = 42;
    assert_eq!(o[foo], 42);
}

// Multiple types in one object

#[test]
fn heterogeneous_fields() {
    let (defs, _, counter, vec) = test_obj_defs();
    let mut o = ExtObj::<TestObj>::new(&defs);

    o[counter].store(7, Ordering::Relaxed);
    o.get_mut(vec).push("hello".into());

    assert_eq!(o[counter].load(Ordering::Relaxed), 7);
    assert_eq!(o[vec], ["hello"]);
}

// Drop is executed

static DROP_COUNT: AtomicUsize = AtomicUsize::new(0);

#[derive(Default)]
struct Droppable;

impl Drop for Droppable {
    fn drop(&mut self) {
        DROP_COUNT.fetch_add(1, Ordering::SeqCst);
    }
}

struct DropTest;

#[test]
fn drops_are_called() {
    let mut defs = Defs::<DropTest>::new();
    let _d = Var::<DropTest, Droppable>::__new(&mut defs);
    {
        let _o = ExtObj::<DropTest>::new(&defs);
        assert_eq!(DROP_COUNT.load(Ordering::SeqCst), 0);
    }
    assert_eq!(DROP_COUNT.load(Ordering::SeqCst), 1);
}

// Two independent extension objects

struct A;

struct B;

#[test]
fn independent_types() {
    let mut defs_a = Defs::<A>::new();
    let xa = Var::<A, u8>::__new(&mut defs_a);
    let mut defs_b = Defs::<B>::new();
    let xb = Var::<B, u16>::__new(&mut defs_b);

    let mut a = ExtObj::<A>::new(&defs_a);
    let mut b = ExtObj::<B>::new(&defs_b);
    *a.get_mut(xa) = 11;
    *b.get_mut(xb) = 2222;
    assert_ne!(a[xa] as u16, b[xb]);
    assert_eq!(a[xa], 11);
    assert_eq!(b[xb], 2222);
}

#[test]
fn ext_obj_is_default() {
    let (defs, foo, _, _) = test_obj_defs();
    let o: ExtObj<TestObj> = ExtObj::new(&defs);
    assert_eq!(o[foo], 0);
}

// Destruction runs once per slot, in registration order

static DROP_LOG: std::sync::Mutex<Vec<&'static str>> = std::sync::Mutex::new(Vec::new());

#[derive(Default)]
struct First;

impl Drop for First {
    fn drop(&mut self) {
        DROP_LOG.lock().unwrap().push("first");
    }
}

#[derive(Default)]
struct Second;

impl Drop for Second {
    fn drop(&mut self) {
        DROP_LOG.lock().unwrap().push("second");
    }
}

#[derive(Default)]
struct Third;

impl Drop for Third {
    fn drop(&mut self) {
        DROP_LOG.lock().unwrap().push("third");
    }
}

struct Ordered;

#[test]
fn drops_run_once_per_slot_in_registration_order() {
    let mut defs = Defs::<Ordered>::new();
    let _a = Var::<Ordered, First>::__new(&mut defs);
    let _b = Var::<Ordered, Second>::__new(&mut defs);
    let _c = Var::<Ordered, Third>::__new(&mut defs);
    {
        let _o = ExtObj::<Ordered>::new(&defs);
        assert!(DROP_LOG.lock().unwrap().is_empty());
    }
    assert_eq!(*DROP_LOG.lock().unwrap(), ["first", "second", "third"]);
}

// Schema and handles

struct Grown;

#[test]
fn handles_count_up_from_zero_and_compare_by_position() {
    let mut defs = Defs::<Grown>::new();
    assert_eq!(defs.len(), 0);
    let a = Var::<Grown, i32>::__new(&mut defs);
    let b = Var::<Grown, i32>::__new(&mut defs);
    assert_eq!(defs.len(), 2);
    let a2 = a;
    assert!(a == a2);
    assert!(a.clone() == a);
    assert!(a != b);

    let mut set = std::collections::HashSet::new();
    set.insert(a);
    set.insert(a2);
    set.insert(b);
    assert_eq!(set.len(), 2);

    let mut o = ExtObj::new(&defs);
    *o.get_mut(a) = 1;
    *o.get_mut(b) = 2;
    assert_eq!((*o.get(a), *o.get(b)), (1, 2));
}

#[test]
fn fresh_instance_holds_each_slots_default() {
    let mut defs = Defs::<Grown>::new();
    let a = Var::<Grown, i32>::__new(&mut defs);
    let b = Var::<Grown, bool>::__new(&mut defs);
    let c = Var::<Grown, String>::__new(&mut defs);
    let d = Var::<Grown, Option<u8>>::__new(&mut defs);
    let o = ExtObj::new(&defs);
    assert_eq!(o[a], 0);
    assert_eq!(o[b], false);
    assert_eq!(o[c], "");
    assert_eq!(o[d], None);
}

#[test]
fn instances_of_one_schema_do_not_share_values() {
    let mut defs = Defs::<Grown>::new();
    let a = Var::<Grown, u64>::__new(&mut defs);
    let mut first = ExtObj::new(&defs);
    let mut second = ExtObj::new(&defs);
    *first.get_mut(a) = 5;
    *second.get_mut(a) = 6;
    assert_eq!(first[a], 5);
    assert_eq!(second[a], 6);
}

#[test]
fn an_instance_keeps_the_slots_it_was_made_with() {
    let mut defs = Defs::<Grown>::new();
    let a = Var::<Grown, u8>::__new(&mut defs);
    let mut early = ExtObj::new(&defs);
    *early.get_mut(a) = 9;
    let b = Var::<Grown, u16>::__new(&mut defs);
    let late = ExtObj::new(&defs);
    assert_eq!(early[a], 9);
    assert_eq!(late[a], 0);
    assert_eq!(late[b], 0);
}

fn assert_send_sync<T: Send + Sync>(_: &T) {}

#[test]
fn instances_and_schemas_may_cross_threads() {
    let mut defs = Defs::<Grown>::new();
    let _a = Var::<Grown, AtomicUsize>::__new(&mut defs);
    let o = ExtObj::new(&defs);
    assert_send_sync(&defs);
    assert_send_sync(&o);
}
