use eso::borrow::Take;
use eso::shorthand::t;
use eso::Eso;

use std::borrow::Cow;

type Str<'a> = t::ESO<&'a str, &'static str, String>;

#[test]
fn concrete_scenario() {
    let a: Str = Str::from_ref("Hello World");
    let b: Str = Str::from_static("Hello World");
    let c: Str = Str::from_owned(String::from("Hello World"));

    assert_eq!(a.get_ref::<&str>(), "Hello World");
    assert_eq!(b.get_ref::<&str>(), "Hello World");
    assert_eq!(c.get_ref::<&str>(), "Hello World");
    assert_eq!(a.get_ref::<&str>(), b.get_ref::<&str>());
    assert_eq!(b.get_ref::<&str>(), c.get_ref::<&str>());

    assert!(a.is_ephemeral() && !a.is_static() && !a.is_owning());
    assert!(b.is_static() && !b.is_ephemeral() && !b.is_owning());
    assert!(c.is_owning() && !c.is_ephemeral() && !c.is_static());

    assert!(b.reference().is_static());
    assert!(c.reference().is_ephemeral());
    assert!(c.into_owning().is_owning());
}

#[test]
fn owned_round_trip() {
    let x = String::from("Hello World");
    let v: Str = Str::from_owned(x.clone());
    let r: &str = v.get_ref();
    let y: String = r.own();
    assert_eq!(y, x);
}

#[test]
fn case_predicates_exclusive_and_exhaustive() {
    let values = [
        Str::from_ref("x"),
        Str::from_static("y"),
        Str::from_owned(String::from("z")),
    ];
    for v in &values {
        let mut count = 0;
        if v.is_ephemeral() {
            count += 1;
        }
        if v.is_static() {
            count += 1;
        }
        if v.is_owning() {
            count += 1;
        }
        assert_eq!(count, 1);
        assert_eq!(v.is_reference(), !v.is_owning());
        assert_eq!(v.is_lasting(), !v.is_ephemeral());
    }
}

#[test]
fn clone_on_write() {
    let source = String::from("Hello ");
    let mut v: Str = Str::from_ref(source.as_str());
    v.mutate(|s: &mut String| s.push_str("World!"));
    assert!(v.is_owning());
    assert_eq!(v.get_ref::<&str>(), "Hello World!");
    // the referenced source data is unmodified
    assert_eq!(source, "Hello ");
}

#[test]
fn to_mut_clones_reference_into_owned() {
    let mut v: Str = Str::from_ref("Hello ");
    v.to_mut().push_str("World!");
    assert!(v.is_owning());
    assert_eq!(v.get_ref::<&str>(), "Hello World!");

    let mut o: Str = Str::from_owned(String::from("abc"));
    o.to_mut().push_str("def");
    assert!(o.is_owning());
    assert_eq!(o.get_ref::<&str>(), "abcdef");
}

#[test]
fn narrowing_exhaustiveness_ephemeral() {
    let mk = || Str::from_ref("Hello World");
    assert_eq!(
        mk().try_split_ephemeral().ok().unwrap().safe_unwrap_ephemeral(),
        "Hello World"
    );
    assert!(mk().try_split_static().is_err());
    assert!(mk().try_split_owned().is_err());
}

#[test]
fn narrowing_exhaustiveness_static() {
    let mk = || Str::from_static("Hello World");
    assert!(mk().try_split_ephemeral().is_err());
    assert_eq!(
        mk().try_split_static().ok().unwrap().safe_unwrap_static(),
        "Hello World"
    );
    assert!(mk().try_split_owned().is_err());
}

#[test]
fn narrowing_exhaustiveness_owned() {
    let mk = || Str::from_owned(String::from("Hello World"));
    assert!(mk().try_split_ephemeral().is_err());
    assert!(mk().try_split_static().is_err());
    assert_eq!(
        mk().try_split_owned().ok().unwrap().safe_unwrap_owned(),
        "Hello World"
    );
}

#[test]
fn narrowing_failure_keeps_the_value() {
    let v: Str = Str::from_owned(String::from("Hello World"));
    let not_e = v.try_split_ephemeral().err().unwrap();
    assert!(not_e.is_owning());
    assert_eq!(not_e.get_ref::<&str>(), "Hello World");
}

#[test]
fn try_unwrap_moves_or_proves_non_match() {
    let e: Str = Str::from_ref("Hello World");
    assert_eq!(e.try_unwrap_ephemeral().ok().unwrap(), "Hello World");

    let s: Str = Str::from_static("Hello World");
    assert_eq!(s.try_unwrap_static().ok().unwrap(), "Hello World");

    let o: Str = Str::from_owned(String::from("Hello World"));
    assert_eq!(o.try_unwrap_owned().ok().unwrap(), "Hello World");

    type EOStr<'a> = t::EO<&'a str, &'static str, String>;
    let o2: EOStr = EOStr::from_owned(String::from("Hello World"));
    let not_e = o2.try_unwrap_ephemeral().err().unwrap();
    assert_eq!(not_e.safe_unwrap_owned(), "Hello World");
}

#[test]
fn widening_idempotence() {
    let c: Str = Str::from_owned(String::from("Hello World"));
    let once = c.into_owning();
    assert!(once.is_owning());
    let twice = once.into_owning();
    assert!(twice.is_owning());
    assert_eq!(twice.safe_unwrap_owned(), "Hello World");

    let e: Str = Str::from_ref("Hello World");
    let widened = e.into_owning().into_owning();
    assert_eq!(widened.safe_unwrap_owned(), "Hello World");
}

#[test]
fn into_static_keeps_lasting_cases() {
    let e: Str = Str::from_ref("Hello World");
    let st = e.into_static();
    assert!(st.is_owning());
    assert_eq!(st.get_ref::<&str>(), "Hello World");

    let s: Str = Str::from_static("Hello World");
    let st2 = s.into_static();
    assert!(st2.is_static());
    assert_eq!(st2.get_ref::<&str>(), "Hello World");

    let o: Str = Str::from_owned(String::from("Hello World"));
    let st3 = o.into_static();
    assert!(st3.is_owning());
    assert_eq!(st3.get_ref::<&str>(), "Hello World");
}

#[test]
fn to_static_and_to_owning_leave_the_source_alive() {
    let v: Str = Str::from_ref("Hello World");
    let st = v.to_static();
    assert!(v.is_ephemeral());
    assert!(st.is_owning());
    assert_eq!(st.get_ref::<&str>(), "Hello World");

    let ow = v.to_owning();
    assert!(v.is_ephemeral());
    assert!(ow.is_owning());
    assert_eq!(ow.get_ref::<&str>(), "Hello World");

    let s: Str = Str::from_static("Hello World");
    assert!(s.to_static().is_static());
    assert!(s.to_owning().is_owning());

    let o: Str = Str::from_owned(String::from("Hello World"));
    assert!(o.to_static().is_owning());
    assert!(o.to_owning().is_owning());
    assert_eq!(o.get_ref::<&str>(), "Hello World");
}

#[test]
fn reference_and_ephemeral_views() {
    let s: Str = Str::from_static("Hello World");
    let o: Str = Str::from_owned(String::from("Hello World"));
    assert!(s.reference().is_static());
    assert!(o.reference().is_ephemeral());
    assert!(s.ephemeral().is_ephemeral());
    assert!(o.ephemeral().is_ephemeral());
    assert_eq!(o.ephemeral().safe_unwrap_ephemeral(), "Hello World");
}

#[test]
fn try_get_mut_only_on_owned() {
    type Int<'a> = t::ESO<&'a i32, &'static i32, i32>;
    let mut my_int: Int = Int::from_owned(40);
    if let Some(mut_ref) = my_int.try_get_mut() {
        *mut_ref += 2;
    }
    assert_eq!(my_int.get_ref::<&i32>(), &42);

    let mut my_ref: Int = Int::from_ref(&42);
    assert!(matches!(my_ref.try_get_mut(), None));
    assert!(my_ref.is_ephemeral());
}

#[test]
fn get_mut_and_get_owned_ref() {
    type OnlyO<'a> = t::O<&'a str, &'static str, String>;
    let mut only_o: OnlyO = OnlyO::from_owned(String::from("Hello "));
    only_o.get_mut().push_str("World");
    assert_eq!(only_o.get_owned_ref(), "Hello World");
    assert_eq!(only_o.get_ref::<&str>(), "Hello World");
    assert_eq!(only_o.safe_unwrap_owned(), "Hello World");
}

#[test]
fn merge_collapses_same_typed_cases() {
    type Tri = t::ESO<i32, i32, i32>;
    assert_eq!(Tri::from_ref(1).merge(), 1);
    assert_eq!(Tri::from_static(2).merge(), 2);
    assert_eq!(Tri::from_owned(3).merge(), 3);
}

#[test]
fn cow_round_trips() {
    type EOStr<'a> = t::EO<&'a str, &'static str, String>;

    let owned_eso: EOStr = EOStr::from_cow(Cow::Owned(String::from("Hello World")));
    assert!(owned_eso.is_owning());
    assert_eq!(owned_eso.get_ref::<&str>(), "Hello World");

    let borrowed_eso: EOStr = EOStr::from_cow(Cow::Borrowed("Hello World"));
    assert!(borrowed_eso.is_reference());
    assert_eq!(borrowed_eso.get_ref::<&str>(), "Hello World");

    let my_ref: Str = Str::from_ref("Hello World");
    assert!(matches!(my_ref.into_cow(), Cow::Borrowed("Hello World")));
    let my_shared: Str = Str::from_static("Hello World");
    assert!(matches!(my_shared.into_cow(), Cow::Borrowed("Hello World")));
    let my_owned: Str = Str::from_owned(String::from("Hello World"));
    let back: Cow<str> = my_owned.into_cow();
    assert!(matches!(back, Cow::Owned(_)));
    assert_eq!(back, "Hello World");

    let empty: EOStr = EOStr::from_cow(Cow::Borrowed(""));
    assert_eq!(empty.get_ref::<&str>(), "");
}

#[test]
fn map_each_case() {
    let my_ref: Str = Str::from_ref("Hello World");
    let mapped = my_ref.map_e(|_| "Ha!");
    assert_eq!(mapped.get_ref::<&str>(), "Ha!");

    let my_static: Str = Str::from_static("Hello World");
    let mapped = my_static.map_e(|_| "Ha!");
    assert_eq!(mapped.get_ref::<&str>(), "Hello World");

    let my_static: Str = Str::from_static("Hello World");
    let mapped = my_static.map_s(|_| "Ha!");
    assert_eq!(mapped.get_ref::<&str>(), "Ha!");

    let my_owned: Str = Str::from_owned(String::from("Hello World"));
    let mapped = my_owned.map_o(|o: String| o.to_uppercase());
    assert_eq!(mapped.get_ref::<&str>(), "HELLO WORLD");

    let my_ref: Str = Str::from_ref("Hello World");
    let mapped = my_ref.map_o(|o: String| o.to_uppercase());
    assert_eq!(mapped.get_ref::<&str>(), "Hello World");

    let check = |v: Str, expect: &str| {
        let mapped = v.map(|_e| "Ephemeral", |_s| "Static", |o: String| o.to_uppercase());
        assert_eq!(mapped.get_ref::<&str>(), expect);
    };
    check(Str::from_ref("Hello World"), "Ephemeral");
    check(Str::from_static("Hello World"), "Static");
    check(Str::from_owned(String::from("Hello World")), "HELLO WORLD");
}

#[test]
fn merge_with_and_flat_map() {
    type Mixed = t::ESO<i32, char, String>;
    let check = |v: Mixed, expect: &str| {
        let merged = v.merge_with(
            |e: i32| format!("{}", e),
            |s: char| format!("{}", s),
            |o: String| o,
        );
        assert_eq!(merged, expect);
    };
    check(Mixed::from_ref(42), "42");
    check(Mixed::from_static('!'), "!");
    check(Mixed::from_owned(String::from("Hello World")), "Hello World");

    let v: Mixed = Mixed::from_ref(7);
    let flat: Str = v.flat_map(
        |_e: i32| Str::from_static("was ephemeral"),
        |_s: char| Str::from_static("was static"),
        |_o: String| Str::from_static("was owned"),
    );
    assert_eq!(flat.get_ref::<&str>(), "was ephemeral");
}

#[test]
fn outer_map_carries_markers() {
    let v: Str = Str::from_ref("Hello World");
    let out: Str = v.outer_map(|e| e, |s| s, |o| o);
    assert!(out.is_ephemeral());
    assert_eq!(out.get_ref::<&str>(), "Hello World");
}

#[test]
fn split_and_unsplit_round_trip() {
    let v: Str = Str::from_static("Hello World");
    let split = v.split();
    assert!(split.is_static());
    let back = split.unsplit();
    assert!(back.is_static());
    assert_eq!(back.get_ref::<&str>(), "Hello World");

    let v: Str = Str::from_ref("Hello World");
    let back = v.split().unsplit();
    assert!(back.is_ephemeral());
    assert_eq!(back.get_ref::<&str>(), "Hello World");

    let v: Str = Str::from_owned(String::from("Hello World"));
    let back = v.split().unsplit();
    assert!(back.is_owning());
    assert_eq!(back.get_ref::<&str>(), "Hello World");
}

#[test]
fn unify_selects_the_live_case() {
    type Ei = t::E<i32, i32, i32>;
    type Si = t::S<i32, i32, i32>;
    type Oi = t::O<i32, i32, i32>;
    type Nested = Eso<Ei, Si, Oi>;
    type Merged = t::ESO<i32, i32, i32>;

    let eso1: Merged = Nested::E(Ei::from_ref(1)).unify();
    let eso2: Merged = Nested::S(Si::from_static(2)).unify();
    let eso3: Merged = Nested::O(Oi::from_owned(3)).unify();
    assert_eq!(eso1.merge(), 1);
    assert_eq!(eso2.merge(), 2);
    assert_eq!(eso3.merge(), 3);
}

#[test]
fn relax_drops_impossible_cases() {
    type SOStr<'a> = t::SO<&'a str, &'static str, String>;
    fn tie_to_lifetime<'a>(_lifetime_of: &'a i32) -> SOStr<'a> {
        SOStr::from_static("Hello World")
    }
    let i = 42;
    let my_str = tie_to_lifetime(&i);
    let my_str: SOStr<'static> = my_str.relax();
    assert!(my_str.is_static());
    assert_eq!(my_str.get_ref::<&str>(), "Hello World");
}

#[test]
fn clone_relax_copies_the_live_case() {
    let v: Str = Str::from_owned(String::from("Hello World"));
    let copy: Str = v.clone_relax();
    assert!(v.is_owning());
    assert!(copy.is_owning());
    assert_eq!(copy.get_ref::<&str>(), "Hello World");
}

type IStr<'a> = t::ESO<&'a str, String, String>;

#[test]
fn interning_an_ephemeral_reference() {
    let ephemeral: IStr = IStr::from_ref("Hello World");
    let shared = ephemeral.try_intern_ephemeral().ok().unwrap();
    assert!(shared.is_static());
    assert_eq!(shared.get_ref::<&str>(), "Hello World");

    let ephemeral: IStr = IStr::from_ref("Hello World");
    let shared = ephemeral.intern_ephemeral();
    assert!(shared.is_static());
    assert_eq!(shared.get_ref::<&str>(), "Hello World");

    let ephemeral: IStr = IStr::from_ref("Hello World");
    let interned = ephemeral.intern_or_take();
    assert!(!interned.is_ephemeral());
    assert_eq!(interned.get_ref::<&str>(), "Hello World");
}

#[test]
fn interning_an_owned_value() {
    let owned: IStr = IStr::from_owned(String::from("Hello World"));
    let shared = owned.try_intern().ok().unwrap();
    assert!(shared.is_static());
    assert_eq!(shared.get_ref::<&str>(), "Hello World");

    let owned: IStr = IStr::from_owned(String::from("Hello World"));
    let shared = owned.intern();
    assert!(shared.is_static());
    assert_eq!(shared.get_ref::<&str>(), "Hello World");

    // the ephemeral-only probe fails on an owned value and returns it unchanged
    let owned: IStr = IStr::from_owned(String::from("Hello World"));
    let back = owned.try_intern_ephemeral().err().unwrap();
    assert!(back.is_owning());
    assert_eq!(back.get_ref::<&str>(), "Hello World");

    // a value already in the static case is its own interned form
    let shared: IStr = IStr::from_static(String::from("Hello World"));
    let still = shared.try_intern().ok().unwrap();
    assert!(still.is_static());
    assert_eq!(still.get_ref::<&str>(), "Hello World");
}
