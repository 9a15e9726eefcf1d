use eso::borrow::Borrow;
use eso::borrow::Take;
use eso::maybe::An;
use eso::maybe::Maybe;
use eso::maybe::MaybeMap;
use eso::maybe::Relax;
use eso::unify::Unify;
use eso::unify::Unify3;
use eso::No;

use std::rc::Rc;
use std::sync::Arc;

#[test]
fn an_accessors() {
    let a = An(5);
    assert_eq!(*a.inner(), 5);
    let mut a = An(5);
    *a.inner_mut() = 7;
    assert_eq!(a.unwrap(), 7);
    let a = An(String::from("abc"));
    let b = a.dup();
    assert_eq!(b.unwrap(), "abc");
}

#[test]
fn an_map_keeps_the_result_contained() {
    let a = An(5);
    let b = a.map(|x: i32| x + 1);
    assert_eq!(b.0, 6);
    let a = An(5);
    let b = a.do_map(|x: i32| format!("{}", x));
    assert_eq!(b.unwrap(), "5");
}

#[test]
fn an_unwrap_try_returns_the_value_on_failure() {
    let a = An(3);
    let r: Result<i32, An<i32>> = a.unwrap_try(|v| if v > 0 { Ok(v * 2) } else { Err(v) });
    assert_eq!(r.ok().unwrap(), 6);

    let a = An(-3);
    let r: Result<i32, An<i32>> = a.unwrap_try(|v| if v > 0 { Ok(v * 2) } else { Err(v) });
    assert_eq!(r.err().unwrap().unwrap(), -3);

    let a = An(-3);
    let r: Result<i32, (An<i32>, &str)> =
        a.unwrap_try_x(|v| if v > 0 { Ok(v * 2) } else { Err((v, "negative")) });
    let (m, e) = r.err().unwrap();
    assert_eq!(m.unwrap(), -3);
    assert_eq!(e, "negative");
}

#[test]
fn relax_is_the_identity_on_present_markers() {
    let a: An<i32> = An(1);
    let b: An<i32> = a.relax();
    assert_eq!(b.unwrap(), 1);
}

#[test]
fn unify_present_markers() {
    let one: An<i32> = <An<i32> as Unify<An<i32>>>::inject_a(An(1));
    assert_eq!(*one.inner(), 1);
    let two: An<i32> = <An<i32> as Unify<An<i32>>>::inject_b(An(2));
    assert_eq!(*two.inner(), 2);

    // a present marker unifies with an absent one of any inner type
    let yes: An<i32> = <An<i32> as Unify<No<String>>>::inject_a(An(3));
    assert_eq!(*yes.inner(), 3);
    let yes: An<i32> = <No<String> as Unify<An<i32>>>::inject_b(An(4));
    assert_eq!(*yes.inner(), 4);
}

#[test]
fn unify3_injects_each_side() {
    let a: An<i32> = <An<i32> as Unify3<An<i32>, No<u8>>>::inject3_a(An(1));
    assert_eq!(*a.inner(), 1);
    let b: An<i32> = <An<i32> as Unify3<An<i32>, No<u8>>>::inject3_b(An(2));
    assert_eq!(*b.inner(), 2);
    let c: An<i32> = <No<u8> as Unify3<No<u16>, An<i32>>>::inject3_c(An(3));
    assert_eq!(*c.inner(), 3);
}

#[test]
fn borrow_views_preserve_contents() {
    let value = String::from("Hello World");
    let reference: &str = value.borrow();
    assert_eq!(reference, "Hello World");

    let v: Vec<i32> = vec![1, 2, 3];
    let s: &[i32] = v.borrow();
    assert_eq!(s, &[1, 2, 3]);

    let n = 17;
    let r: &i32 = n.borrow();
    assert_eq!(*r, 17);

    let boxed: Box<i32> = Box::new(9);
    let r: &i32 = boxed.borrow();
    assert_eq!(*r, 9);

    let rc: Rc<i32> = Rc::new(10);
    let r: &i32 = rc.borrow();
    assert_eq!(*r, 10);

    let arc: Arc<i32> = Arc::new(11);
    let r: &i32 = arc.borrow();
    assert_eq!(*r, 11);
}

#[test]
fn take_clones_the_denoted_thing() {
    let s: &str = "Hello World";
    let owned: String = s.own();
    assert_eq!(owned, "Hello World");
    let owned2: String = Take::to_owned(&s);
    assert_eq!(owned2, "Hello World");

    let sl: &[i32] = &[1, 2, 3];
    let v: Vec<i32> = sl.own();
    assert_eq!(v, vec![1, 2, 3]);
    let empty: &[i32] = &[];
    let v: Vec<i32> = empty.own();
    assert!(v.is_empty());

    let n: &i32 = &5;
    let o: i32 = n.own();
    assert_eq!(o, 5);
    let b: Box<i32> = n.own();
    assert_eq!(*b, 5);
    let rc: Rc<i32> = n.own();
    assert_eq!(*rc, 5);
    let arc: Arc<i32> = n.own();
    assert_eq!(*arc, 5);
}
