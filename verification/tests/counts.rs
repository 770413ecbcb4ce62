use runy_actor::countme::Count;
use runy_actor::countme::Registry;
use runy_actor::countme::Stats;
use runy_actor::report::decimal_string;
use runy_actor::report::rank;
use runy_actor::report::report_string;
use runy_actor::report::Rank;
use runy_actor::report::Report;

fn line(name: &str, total: &str, max_live: &str, live: &str, width: usize) -> String {
    format!("{:<width$} {:>12} {:>12} {:>12}\n", name, total, max_live, live, width = width)
}

fn stats(name: &str, total: usize, max_live: usize, live: usize) -> Stats {
    Stats { name: name.to_string(), total, max_live, live }
}

#[test]
fn new_stats_start_at_zero() {
    assert_eq!(Stats::new("demo::Counter"), stats("demo::Counter", 0, 0, 0));
}

#[test]
fn guards_count_instances_in_and_out() {
    let mut registry = Registry::new();
    assert_eq!(registry.get(1), None);
    let first = Count::new(&mut registry, 1, "demo::Counter");
    let second = Count::new(&mut registry, 1, "demo::Counter");
    assert_eq!(registry.get(1), Some(stats("demo::Counter", 2, 2, 2)));
    first.release(&mut registry);
    assert_eq!(registry.get(1), Some(stats("demo::Counter", 2, 2, 1)));
    let third = Count::new(&mut registry, 1, "ignored");
    assert_eq!(registry.get(1), Some(stats("demo::Counter", 3, 2, 2)));
    second.release(&mut registry);
    third.release(&mut registry);
    assert_eq!(registry.get(1), Some(stats("demo::Counter", 3, 2, 0)));
    let _other = Count::new(&mut registry, 2, "demo::Echo");
    assert_eq!(registry.get(2), Some(stats("demo::Echo", 1, 1, 1)));
    assert_eq!(registry.get(1), Some(stats("demo::Counter", 3, 2, 0)));
}

#[test]
fn live_count_wraps_below_zero() {
    let mut registry = Registry::new();
    let first = Count::new(&mut registry, 1, "k");
    first.release(&mut registry);
    let again = Count::new(&mut registry, 1, "k");
    again.release(&mut registry);
    assert_eq!(registry.get(1), Some(stats("k", 2, 1, 0)));
}

#[test]
fn snapshot_holds_every_kind_once() {
    let mut registry = Registry::new();
    let _a = Count::new(&mut registry, 10, "b::Second");
    let _b = Count::new(&mut registry, 11, "a::First");
    let _c = Count::new(&mut registry, 10, "b::Second");
    let mut all = registry.snapshot();
    all.sort_by(|x, y| x.name.cmp(&y.name));
    assert_eq!(all, vec![stats("a::First", 1, 1, 1), stats("b::Second", 2, 2, 2)]);
}

#[test]
fn names_are_ranked_byte_by_byte() {
    assert_eq!(rank("abc", "abd"), Rank::Before);
    assert_eq!(rank("abd", "abc"), Rank::After);
    assert_eq!(rank("abc", "abc"), Rank::Same);
    assert_eq!(rank("ab", "abc"), Rank::Before);
    assert_eq!(rank("abc", "ab"), Rank::After);
    assert_eq!(rank("", ""), Rank::Same);
    assert_eq!(rank("", "a"), Rank::Before);
    assert_eq!(rank("Z", "a"), Rank::Before);
    assert_eq!(rank("z", "\u{e9}"), Rank::Before);
    for (a, b) in [("x::A", "x::B"), ("\u{e9}t\u{e9}", "zebra"), ("same", "same"), ("b", "a")] {
        let expected = if a < b {
            Rank::Before
        } else if a == b {
            Rank::Same
        } else {
            Rank::After
        };
        assert_eq!(rank(a, b), expected);
    }
}

#[test]
fn numbers_are_written_in_decimal() {
    assert_eq!(decimal_string(0), "0");
    assert_eq!(decimal_string(7), "7");
    assert_eq!(decimal_string(10), "10");
    assert_eq!(decimal_string(1234567890), "1234567890");
    assert_eq!(decimal_string(usize::MAX), format!("{}", usize::MAX));
}

#[test]
fn empty_report_is_the_head_alone() {
    let registry = Registry::new();
    assert_eq!(report_string(&registry), line("", "total", "max_live", "live", 5));
    assert_eq!(report_string(&registry), "             total     max_live         live\n");
}

#[test]
fn report_lists_the_kinds_by_name() {
    let mut registry = Registry::new();
    let _a = Count::new(&mut registry, 3, "demo::Worker");
    let _b = Count::new(&mut registry, 1, "demo::Counter");
    let c = Count::new(&mut registry, 3, "demo::Worker");
    let _d = Count::new(&mut registry, 2, "app::Echo");
    c.release(&mut registry);
    let width = "demo::Counter".len();
    let expected = line("", "total", "max_live", "live", width)
        + &line("app::Echo", "1", "1", "1", width)
        + &line("demo::Counter", "1", "1", "1", width)
        + &line("demo::Worker", "2", "2", "1", width);
    assert_eq!(Report::new(&registry).to_string(), expected);
    assert_eq!(report_string(&registry), expected);
}

#[test]
fn short_names_get_the_least_width() {
    let mut registry = Registry::new();
    let _a = Count::new(&mut registry, 1, "A");
    let expected = line("", "total", "max_live", "live", 5) + &line("A", "1", "1", "1", 5);
    assert_eq!(report_string(&registry), expected);
    assert_eq!(expected.lines().nth(1), Some("A                1            1            1"));
}

#[test]
fn names_are_measured_in_bytes_and_padded_in_characters() {
    let mut registry = Registry::new();
    let _a = Count::new(&mut registry, 1, "\u{e9}t\u{e9}::Act");
    let _b = Count::new(&mut registry, 2, "z");
    let width = "\u{e9}t\u{e9}::Act".len();
    assert_eq!(width, 10);
    let expected = line("", "total", "max_live", "live", width)
        + &line("z", "1", "1", "1", width)
        + &line("\u{e9}t\u{e9}::Act", "1", "1", "1", width);
    assert_eq!(report_string(&registry), expected);
}

#[test]
fn counts_wider_than_their_column_are_not_cut() {
    let mut registry = Registry::new();
    for _ in 0..3 {
        let _ = Count::new(&mut registry, 1, "many");
    }
    let text = report_string(&registry);
    assert_eq!(text.lines().nth(1), Some("many             3            3            3"));
    assert_eq!(line("n", "1234567890123", "1", "1", 5), "n     1234567890123            1            1\n");
}

#[test]
fn kinds_with_one_name_share_a_line() {
    let mut registry = Registry::new();
    let _a = Count::new(&mut registry, 1, "twin");
    let _b = Count::new(&mut registry, 2, "twin");
    let text = report_string(&registry);
    assert_eq!(text.lines().count(), 2);
    assert_eq!(text.lines().nth(1), Some("twin             1            1            1"));
}
