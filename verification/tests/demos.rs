use feature_demos::chain::{test_node_list, SNode};
use feature_demos::cleanup::{test_drop, CustomSmartPointer};
use feature_demos::console::Console;
use feature_demos::deref::{test_deref, Alpha};
use feature_demos::dispatch::{
    testTraitAsArg, testTraitAsRet, testTraitGenericConstraints0, testTraitGenericConstraints1,
    test_trait, DemoTrait, Foo,
};
use feature_demos::errors::{func0, func1, test_err_expect, test_err_pass, test_err_unwarp};
use feature_demos::generics::{test_action, test_pointer, Action, Pointer};
use feature_demos::largest::{largest, test_largest};
use feature_demos::lifetimes::{test_struct_prop_life_time, Bar};
use feature_demos::pointer::{first_thread, second_thread, PointerWrapper, WRITTEN};
use feature_demos::sharing::{
    reader_turn, report_count, test_rc, test_ref_cell, writer_turn, ADDED,
};
use feature_demos::text::{write_signed, write_unsigned, Printable};

fn transcript(demo: impl FnOnce(&mut Console)) -> Vec<String> {
    let mut out = Console::new();
    demo(&mut out);
    out.into_lines()
}

fn rendered<T: Printable>(value: T) -> String {
    let mut f = String::new();
    value.fmt(&mut f);
    f
}

#[test]
fn test13() {
    let mut data = vec![1, 2, 3];
    assert_eq!(transcript(|out| reader_turn(&data, out)), vec!["[1, 2, 3]"]);
    writer_turn(&mut data);
    assert_eq!(data, vec![1, 2, 3, 4]);
    assert_eq!(transcript(|out| reader_turn(&data, out)), vec!["[1, 2, 3, 4]"]);
    writer_turn(&mut data);
    assert_eq!(data, vec![1, 2, 3, 4, 4]);
}

#[test]
fn test11() {
    let data = vec![1, 2, 3];
    assert_eq!(
        transcript(|out| test_ref_cell(&data, &data, out)),
        vec!["Shared data: [1, 2, 3]", "Shared data (after modification): [1, 2, 3]"]
    );
}

#[test]
fn test0() {
    assert_eq!(transcript(test_largest), vec!["# largest value: 10"]);
}

#[test]
fn test1() {
    assert_eq!(transcript(test_pointer), vec!["pointer: x: 1, y: 2"]);
}

#[test]
fn test2() {
    assert_eq!(transcript(test_action), vec!["# food = rice", "# food = 100"]);
}

#[test]
fn test3() {
    assert_eq!(transcript(test_trait), vec!["Foo", "Foo", "Foo", "Foo"]);
}

#[test]
fn test4() {
    assert_eq!(
        transcript(test_struct_prop_life_time),
        vec!["bar sref : xyz", "#show: xyz"]
    );
}

#[test]
fn test5() {
    assert_eq!(transcript(test_node_list), vec!["--> 0", "--> 1", "--> 2"]);
}

#[test]
fn test6() {
    assert_eq!(transcript(test_deref), vec!["value0 = 1", "value1 = 1"]);
}

#[test]
fn test7() {
    assert_eq!(test_err_unwarp(Ok::<u8, String>(3)), 3);
    assert_eq!(test_err_expect(Ok::<&str, String>("handle")), "handle");
}

#[test]
fn test8() {
    let missing: Result<u8, String> = Err("No such file or directory (os error 2)".to_string());
    assert_eq!(
        transcript(|out| test_err_pass(missing, out)),
        vec!["# error: No such file or directory (os error 2)", "false"]
    );
}

#[test]
fn test9() {
    let mut out = Console::new();
    let (c, d) = test_drop(&mut out);
    assert_eq!(c.data, "my stuff");
    assert_eq!(d.data, " stuff");
    d.on_drop(&mut out);
    c.on_drop(&mut out);
    assert_eq!(
        out.into_lines(),
        vec![
            "CustomSmartPointers created.",
            "Dropping CustomSmartPointer with data ` stuff`!",
            "Dropping CustomSmartPointer with data `my stuff`!",
        ]
    );
}

#[test]
fn test10() {
    assert_eq!(transcript(test_rc), vec!["Reference count:3"]);
}

#[test]
fn console_keeps_lines_in_order() {
    let mut out = Console::new();
    assert!(Console::new().into_lines().is_empty());
    out.println("first".to_string());
    out.print_labelled("n = ", &7u32);
    out.println(String::new());
    assert_eq!(out.into_lines(), vec!["first", "n = 7", ""]);
}

#[test]
fn unsigned_numerals() {
    assert_eq!(rendered(0u8), "0");
    assert_eq!(rendered(9u8), "9");
    assert_eq!(rendered(10u8), "10");
    assert_eq!(rendered(255u8), "255");
    assert_eq!(rendered(4294967295u32), "4294967295");
    assert_eq!(rendered(1000usize), "1000");
    let mut f = String::from("n=");
    write_unsigned(u64::MAX, &mut f);
    assert_eq!(f, "n=18446744073709551615");
}

#[test]
fn signed_numerals() {
    assert_eq!(rendered(0i32), "0");
    assert_eq!(rendered(-1i32), "-1");
    assert_eq!(rendered(100i32), "100");
    assert_eq!(rendered(i32::MIN), "-2147483648");
    assert_eq!(rendered(i32::MAX), "2147483647");
    let mut f = String::new();
    write_signed(i64::MIN, &mut f);
    f.push(' ');
    write_signed(i64::MAX, &mut f);
    assert_eq!(f, "-9223372036854775808 9223372036854775807");
}

#[test]
fn numerals_agree_with_the_standard_rendering() {
    for n in [0u64, 7, 10, 99, 100, 12345, 1 << 40, u64::MAX] {
        let mut f = String::new();
        write_unsigned(n, &mut f);
        assert_eq!(f, format!("{}", n));
    }
    for n in [0i64, -7, 10, -99, 100, -12345, i64::MIN, i64::MAX] {
        let mut f = String::new();
        write_signed(n, &mut f);
        assert_eq!(f, format!("{}", n));
    }
}

#[test]
fn words_truth_values_and_lists() {
    assert_eq!(rendered(true), "true");
    assert_eq!(rendered(false), "false");
    assert_eq!(rendered("rice"), "rice");
    assert_eq!(rendered(String::from("my stuff")), "my stuff");
    assert_eq!(rendered(Vec::<i32>::new()), "[]");
    assert_eq!(rendered(vec![5i32]), "[5]");
    assert_eq!(rendered(vec![1i32, -2, 3]), "[1, -2, 3]");
    assert_eq!(rendered(vec![vec![1u8], vec![], vec![2, 3]]), "[[1], [], [2, 3]]");
    let mut f = String::from("kept ");
    vec![1u8, 2].fmt(&mut f);
    assert_eq!(f, "kept [1, 2]");
}

#[test]
fn pointer_wrapper_hands_back_what_it_was_given() {
    assert_eq!(PointerWrapper::new(0).get(), 0);
    assert_eq!(PointerWrapper::new(0xdead_beef).get(), 0xdead_beef);
    assert_eq!(PointerWrapper::new(usize::MAX).get(), usize::MAX);
    let wrapper = PointerWrapper::new(4096);
    assert_eq!(wrapper.get(), 4096);
    assert_eq!(wrapper.get(), 4096);
}

#[test]
fn first_thread_overwrites_and_second_only_reads() {
    let mut value = 1u32;
    let mut out = Console::new();
    second_thread(&value, &mut out);
    first_thread(&mut value, &mut out);
    second_thread(&value, &mut out);
    assert_eq!(value, WRITTEN);
    assert_eq!(WRITTEN, 2);
    assert_eq!(out.into_lines(), vec!["[2]--1", "[1]--1", "[1]--2", "[2]--2"]);
    let mut other = 77u32;
    assert_eq!(transcript(|out| first_thread(&mut other, out)), vec!["[1]--77", "[1]--2"]);
    assert_eq!(other, 2);
}

#[test]
fn largest_is_the_maximum() {
    assert_eq!(largest(&[1u8, 2, 3, 4, 5, 6, 7, 8, 9, 10]), 10);
    assert_eq!(largest(&[10u8, 9, 8, 7, 6, 5, 4, 3, 2, 1]), 10);
    assert_eq!(largest(&[3i32, 9, 2, 9, 1]), 9);
    assert_eq!(largest(&[5i32, 5, 5]), 5);
    assert_eq!(largest(&[-4i64]), -4);
    assert_eq!(largest(&[-4i32, -9, -1, -7]), -1);
    assert_eq!(largest(&['b', 'z', 'a']), 'z');
    assert_eq!(largest(&[usize::MAX, 0]), usize::MAX);
}

#[test]
fn largest_keeps_the_first_of_equal_maxima() {
    #[derive(Clone, Copy, Debug)]
    struct Ranked {
        rank: u8,
        tag: char,
    }
    impl PartialEq for Ranked {
        fn eq(&self, other: &Self) -> bool {
            self.rank == other.rank
        }
    }
    impl PartialOrd for Ranked {
        fn partial_cmp(&self, other: &Self) -> Option<std::cmp::Ordering> {
            self.rank.partial_cmp(&other.rank)
        }
    }
    let list = [
        Ranked { rank: 1, tag: 'a' },
        Ranked { rank: 7, tag: 'b' },
        Ranked { rank: 3, tag: 'c' },
        Ranked { rank: 7, tag: 'd' },
    ];
    let found = largest(&list);
    assert_eq!(found.rank, 7);
    assert_eq!(found.tag, 'b');
}

#[test]
fn largest_with_unordered_items_keeps_what_nothing_exceeded() {
    assert_eq!(largest(&[1.5f64, 0.5, 2.5, 2.0]), 2.5);
    assert!(largest(&[f64::NAN, 1.0, 2.0]).is_nan());
    assert_eq!(largest(&[1.0f64, f64::NAN, 2.0]), 2.0);
}

#[test]
fn chain_is_walked_in_link_order() {
    let last = SNode { val: 30, next: None };
    assert_eq!(transcript(|out| last.show(out)), vec!["--> 30"]);
    let middle = SNode { val: 10, next: Some(&last) };
    let first = SNode { val: 20, next: Some(&middle) };
    assert_eq!(transcript(|out| first.show(out)), vec!["--> 20", "--> 10", "--> 30"]);
    assert_eq!(transcript(|out| middle.show(out)), vec!["--> 10", "--> 30"]);
    let mut out = Console::new();
    out.println("before".to_string());
    first.show(&mut out);
    assert_eq!(out.into_lines(), vec!["before", "--> 20", "--> 10", "--> 30"]);
}

#[test]
fn each_way_of_dispatch_shows_the_value() {
    let foo = Foo {};
    assert_eq!(transcript(|out| foo.show(out)), vec!["Foo"]);
    assert_eq!(transcript(|out| testTraitAsArg(&foo, out)), vec!["Foo"]);
    assert_eq!(transcript(|out| testTraitGenericConstraints0(&foo, out)), vec!["Foo"]);
    assert_eq!(transcript(|out| testTraitGenericConstraints1(&foo, out)), vec!["Foo"]);
    let hidden = testTraitAsRet();
    assert_eq!(transcript(|out| hidden.show(out)), vec!["Foo"]);
    assert_eq!(transcript(|out| testTraitAsArg(&hidden, out)), vec!["Foo"]);
}

#[test]
fn bar_reports_and_returns_its_text() {
    let text = String::from("borrowed");
    let bar = Bar { sref: &text };
    let mut out = Console::new();
    assert_eq!(bar.show(&mut out), "borrowed");
    assert_eq!(out.into_lines(), vec!["#show: borrowed"]);
}

#[test]
fn pointer_and_action_lines() {
    assert_eq!(rendered(Pointer { x: 1i32, y: 2i32 }), "x: 1, y: 2");
    assert_eq!(rendered(Pointer { x: -3i32, y: 40i32 }), "x: -3, y: 40");
    assert_eq!(rendered(Pointer { x: "left", y: "right" }), "x: left, y: right");
    assert_eq!(transcript(|out| Action::Eat("rice").report(out)), vec!["# food = rice"]);
    assert_eq!(transcript(|out| Action::Eat(100i32).report(out)), vec!["# food = 100"]);
    assert_eq!(transcript(|out| Action::<i32>::Sleep.report(out)), vec!["other action!"]);
    assert_eq!(transcript(|out| Action::<i32>::Run.report(out)), vec!["other action!"]);
    assert_eq!(transcript(|out| Action::<&str>::Walk.report(out)), vec!["other action!"]);
}

#[test]
fn alpha_increments_and_dereferences() {
    let mut a = Alpha { val: 1i32 };
    a.inc();
    assert_eq!(a.val, 2);
    assert_eq!(*a, 2);
    let mut low = Alpha { val: i32::MIN };
    low.inc();
    assert_eq!(*low, i32::MIN + 1);
    let mut high = Alpha { val: i32::MAX - 1 };
    high.inc();
    assert_eq!(*high, i32::MAX);
    let word = Alpha { val: "text" };
    assert_eq!(word.len(), 4);
}

#[test]
fn drop_line_quotes_the_data() {
    let p = CustomSmartPointer { data: String::new() };
    assert_eq!(transcript(|out| p.on_drop(out)), vec!["Dropping CustomSmartPointer with data ``!"]);
}

#[test]
fn failure_becomes_a_flag_and_success_passes_through() {
    let mut out = Console::new();
    assert_eq!(func0(Ok::<u32, String>(5), &mut out), Ok(5));
    assert_eq!(func1(Ok::<u32, String>(6), &mut out), Ok(6));
    assert!(out.into_lines().is_empty());
    let mut out = Console::new();
    assert_eq!(func0(Err::<u32, String>("denied".to_string()), &mut out), Err(false));
    assert_eq!(func1(Err::<u32, String>("absent".to_string()), &mut out), Err(false));
    assert_eq!(out.into_lines(), vec!["# error: denied", "# error: absent"]);
}

#[test]
fn func1_returns_what_func0_returns() {
    let attempts: Vec<Result<u32, String>> =
        vec![Ok(0), Ok(9), Err(String::new()), Err("denied".to_string())];
    for attempt in attempts {
        let mut direct = Console::new();
        let mut passed = Console::new();
        assert_eq!(func1(attempt.clone(), &mut passed), func0(attempt, &mut direct));
        assert_eq!(passed.into_lines(), direct.into_lines());
    }
}

#[test]
fn success_is_reported_as_open() {
    assert_eq!(transcript(|out| test_err_pass(Ok::<(), String>(()), out)), vec!["open ok!"]);
}

#[test]
fn owner_count_is_read_from_the_allocation() {
    assert_eq!(transcript(|out| report_count(1, out)), vec!["Reference count:1"]);
    assert_eq!(transcript(|out| report_count(3, out)), vec!["Reference count:3"]);
    assert_eq!(ADDED, 4);
}
