//! The counts of a registry as a table: one line for each kind of actor,
//! in the order of the names.

use crate::countme::Registry;
use crate::countme::Stats;
use vstd::prelude::*;
use vstd::string::*;
use vstd::utf8::encode_utf8;

verus! {

/// How one name stands to another in the order of the table.
#[derive(Debug, Clone, Copy, PartialEq, Eq, Structural)]
pub enum Rank {
    /// The first name comes first.
    Before,
    /// The two names have the same bytes.
    Same,
    /// The second name comes first.
    After,
}

/// The bytes that a name is ordered and measured by.
pub open spec fn name_bytes(name: Seq<char>) -> Seq<u8> {
    encode_utf8(name)
}

/// From position `i` on, `a` comes before `b`: at the first position
/// where they differ `a` has the smaller byte, or `a` ends there and `b`
/// goes on.
pub open spec fn precedes_from(a: Seq<u8>, b: Seq<u8>, i: int) -> bool
    decreases a.len() - i,
{
    if i >= a.len() {
        i < b.len()
    } else if i >= b.len() {
        false
    } else if a[i] != b[i] {
        a[i] < b[i]
    } else {
        precedes_from(a, b, i + 1)
    }
}

/// `a` comes before `b`, byte by byte.
pub open spec fn precedes(a: Seq<u8>, b: Seq<u8>) -> bool {
    precedes_from(a, b, 0)
}

/// Each line's name comes before the names of the lines below it.
pub open spec fn sorted(rows: Seq<Stats>) -> bool {
    forall|i: int, j: int|
        0 <= i < j < rows.len() ==> precedes(
            name_bytes(#[trigger] rows[i].name@),
            name_bytes(#[trigger] rows[j].name@),
        )
}

proof fn lemma_precedes_transitive(a: Seq<u8>, b: Seq<u8>, c: Seq<u8>, i: int)
    requires
        0 <= i,
        precedes_from(a, b, i),
        precedes_from(b, c, i),
    ensures
        precedes_from(a, c, i),
    decreases a.len() - i,
{
    if i < a.len() && a[i] == b[i] && b[i] == c[i] {
        lemma_precedes_transitive(a, b, c, i + 1);
    }
}

proof fn lemma_precedes_skips_common(a: Seq<u8>, b: Seq<u8>, k: int, i: int)
    requires
        0 <= k <= i <= a.len(),
        i <= b.len(),
        forall|j: int| k <= j < i ==> a[j] == b[j],
    ensures
        precedes_from(a, b, k) == precedes_from(a, b, i),
    decreases i - k,
{
    if k < i {
        lemma_precedes_skips_common(a, b, k + 1, i);
    }
}

/// How `a` stands to `b` in the order of the table.
pub fn rank(a: &str, b: &str) -> (rank: Rank)
    ensures
        match rank {
            Rank::Before => precedes(name_bytes(a@), name_bytes(b@)),
            Rank::Same => name_bytes(a@) == name_bytes(b@),
            Rank::After => precedes(name_bytes(b@), name_bytes(a@)),
        },
{
    let x = a.as_bytes();
    let y = b.as_bytes();
    let mut i: usize = 0;
    while i < x.len() && i < y.len()
        invariant
            i <= x@.len(),
            i <= y@.len(),
            x@ == name_bytes(a@),
            y@ == name_bytes(b@),
            forall|j: int| 0 <= j < i ==> x@[j] == y@[j],
        decreases x@.len() - i,
    {
        if x[i] != y[i] {
            proof {
                lemma_precedes_skips_common(x@, y@, 0, i as int);
                lemma_precedes_skips_common(y@, x@, 0, i as int);
            }
            if x[i] < y[i] {
                return Rank::Before;
            } else {
                return Rank::After;
            }
        }
        i += 1;
    }
    proof {
        lemma_precedes_skips_common(x@, y@, 0, i as int);
        lemma_precedes_skips_common(y@, x@, 0, i as int);
    }
    if x.len() == y.len() {
        assert(x@ =~= y@);
        Rank::Same
    } else if i == x.len() {
        Rank::Before
    } else {
        Rank::After
    }
}

/// Puts `row` at its place among the sorted `rows`: in front of the first
/// line whose name does not come before its own, or in the place of that
/// line where the two names are the same.
fn place(rows: &mut Vec<Stats>, row: Stats) -> (at: usize)
    requires
        sorted(old(rows)@),
    ensures
        sorted(final(rows)@),
        at < final(rows)@.len(),
        final(rows)@[at as int] == row,
        at <= old(rows)@.len(),
        final(rows)@ == old(rows)@.insert(at as int, row) || (at < old(rows)@.len() && name_bytes(
            old(rows)@[at as int].name@,
        ) == name_bytes(row.name@) && final(rows)@ == old(rows)@.update(at as int, row)),
{
    let mut at: usize = 0;
    let mut same = false;
    let mut done = false;
    while !done && at < rows.len()
        invariant
            *rows == *old(rows),
            at <= rows@.len(),
            same ==> done,
            same ==> at < rows@.len() && name_bytes(rows@[at as int].name@) == name_bytes(
                row.name@,
            ),
            done && !same ==> at < rows@.len() && precedes(
                name_bytes(row.name@),
                name_bytes(rows@[at as int].name@),
            ),
            forall|i: int|
                0 <= i < at ==> precedes(
                    name_bytes(#[trigger] rows@[i].name@),
                    name_bytes(row.name@),
                ),
        decreases rows@.len() - at + if done { 0int } else { 1int },
    {
        match rank(rows[at].name.as_str(), row.name.as_str()) {
            Rank::Before => {
                at += 1;
            },
            Rank::Same => {
                same = true;
                done = true;
            },
            Rank::After => {
                done = true;
            },
        }
    }
    let ghost before = rows@;
    if same {
        rows[at] = row;
        proof {
            assert(rows@ =~= before.update(at as int, row));
            assert forall|i: int, j: int| 0 <= i < j < rows@.len() implies precedes(
                name_bytes(#[trigger] rows@[i].name@),
                name_bytes(#[trigger] rows@[j].name@),
            ) by {
                let _ = before[i];
                let _ = before[j];
            }
        }
    } else {
        rows.insert(at, row);
        proof {
            assert forall|i: int, j: int| 0 <= i < j < rows@.len() implies precedes(
                name_bytes(#[trigger] rows@[i].name@),
                name_bytes(#[trigger] rows@[j].name@),
            ) by {
                if j < at {
                    let _ = before[i];
                    let _ = before[j];
                } else if j == at {
                    let _ = before[i];
                } else if i == at {
                    let _ = before[at as int];
                    let _ = before[j - 1];
                    if j - 1 > at {
                        lemma_precedes_transitive(
                            name_bytes(row.name@),
                            name_bytes(before[at as int].name@),
                            name_bytes(before[j - 1].name@),
                            0,
                        );
                    }
                } else if i < at {
                    let _ = before[i];
                    let _ = before[j - 1];
                } else {
                    let _ = before[i - 1];
                    let _ = before[j - 1];
                }
            }
        }
    }
    at
}

/// The width of each of the three columns of counts.
pub const COUNT_WIDTH: usize = 12;

/// The least width of the column of names.
pub const NAME_WIDTH: usize = 5;

/// The digit `d` as text.
pub open spec fn digit_text(d: nat) -> Seq<char> {
    if d == 0 {
        "0"@
    } else if d == 1 {
        "1"@
    } else if d == 2 {
        "2"@
    } else if d == 3 {
        "3"@
    } else if d == 4 {
        "4"@
    } else if d == 5 {
        "5"@
    } else if d == 6 {
        "6"@
    } else if d == 7 {
        "7"@
    } else if d == 8 {
        "8"@
    } else {
        "9"@
    }
}

/// The number in decimal digits, without leading zeros.
pub open spec fn decimal(n: nat) -> Seq<char>
    decreases n,
{
    if n < 10 {
        digit_text(n)
    } else {
        decimal(n / 10) + digit_text(n % 10)
    }
}

/// `k` blanks.
pub open spec fn spaces(k: nat) -> Seq<char>
    decreases k,
{
    if k == 0 {
        Seq::empty()
    } else {
        spaces((k - 1) as nat) + " "@
    }
}

/// The text at the right end of a field of `width` characters; a text
/// that is longer stays as it is.
pub open spec fn pad_left(text: Seq<char>, width: nat) -> Seq<char> {
    if text.len() < width {
        spaces((width - text.len()) as nat) + text
    } else {
        text
    }
}

/// The text at the left end of a field of `width` characters; a text
/// that is longer stays as it is.
pub open spec fn pad_right(text: Seq<char>, width: nat) -> Seq<char> {
    if text.len() < width {
        text + spaces((width - text.len()) as nat)
    } else {
        text
    }
}

/// One line of the table: the name in a field of `width` characters, then
/// the three counts, each after a blank and at the right end of its
/// field, then the end of the line.
pub open spec fn table_line(
    first: Seq<char>,
    total: Seq<char>,
    max_live: Seq<char>,
    live: Seq<char>,
    width: nat,
) -> Seq<char> {
    pad_right(first, width) + " "@ + pad_left(total, COUNT_WIDTH as nat) + " "@ + pad_left(
        max_live,
        COUNT_WIDTH as nat,
    ) + " "@ + pad_left(live, COUNT_WIDTH as nat) + "\n"@
}

/// The width of the column of names: the length in bytes of the longest
/// name, and at least `NAME_WIDTH`.
pub open spec fn name_width(rows: Seq<Stats>) -> nat
    decreases rows.len(),
{
    if rows.len() == 0 {
        NAME_WIDTH as nat
    } else {
        let rest = name_width(rows.drop_last());
        let last = name_bytes(rows.last().name@).len();
        if last > rest {
            last
        } else {
            rest
        }
    }
}

/// The lines of the table below its head.
pub open spec fn table_body(rows: Seq<Stats>, width: nat) -> Seq<char>
    decreases rows.len(),
{
    if rows.len() == 0 {
        Seq::empty()
    } else {
        table_body(rows.drop_last(), width) + table_line(
            rows.last().name@,
            decimal(rows.last().total as nat),
            decimal(rows.last().max_live as nat),
            decimal(rows.last().live as nat),
            width,
        )
    }
}

/// The table: the head, then one line for each of `rows`.
pub open spec fn table(rows: Seq<Stats>) -> Seq<char> {
    table_line(""@, "total"@, "max_live"@, "live"@, name_width(rows)) + table_body(
        rows,
        name_width(rows),
    )
}

fn digit_str(d: usize) -> (text: &'static str)
    requires
        d < 10,
    ensures
        text@ == digit_text(d as nat),
{
    if d == 0 {
        "0"
    } else if d == 1 {
        "1"
    } else if d == 2 {
        "2"
    } else if d == 3 {
        "3"
    } else if d == 4 {
        "4"
    } else if d == 5 {
        "5"
    } else if d == 6 {
        "6"
    } else if d == 7 {
        "7"
    } else if d == 8 {
        "8"
    } else {
        "9"
    }
}

/// The number in decimal digits.
pub fn decimal_string(n: usize) -> (text: String)
    ensures
        text@ == decimal(n as nat),
    decreases n,
{
    if n < 10 {
        String::from_str(digit_str(n))
    } else {
        decimal_string(n / 10).concat(digit_str(n % 10))
    }
}

fn push_spaces(out: &mut String, k: usize)
    ensures
        final(out)@ == old(out)@ + spaces(k as nat),
{
    let mut i: usize = 0;
    assert(out@ =~= old(out)@ + spaces(0));
    while i < k
        invariant
            i <= k,
            out@ == old(out)@ + spaces(i as nat),
        decreases k - i,
    {
        out.append(" ");
        i += 1;
        assert(out@ =~= old(out)@ + spaces(i as nat));
    }
}

fn push_left_padded(out: &mut String, text: &str, width: usize)
    ensures
        final(out)@ == old(out)@ + pad_left(text@, width as nat),
{
    let have = text.unicode_len();
    if have < width {
        push_spaces(out, width - have);
    }
    out.append(text);
    assert(out@ =~= old(out)@ + pad_left(text@, width as nat));
}

fn push_right_padded(out: &mut String, text: &str, width: usize)
    ensures
        final(out)@ == old(out)@ + pad_right(text@, width as nat),
{
    let have = text.unicode_len();
    out.append(text);
    if have < width {
        push_spaces(out, width - have);
    }
    assert(out@ =~= old(out)@ + pad_right(text@, width as nat));
}

fn push_line(out: &mut String, first: &str, total: &str, max_live: &str, live: &str, width: usize)
    ensures
        final(out)@ == old(out)@ + table_line(first@, total@, max_live@, live@, width as nat),
{
    push_right_padded(out, first, width);
    out.append(" ");
    push_left_padded(out, total, COUNT_WIDTH);
    out.append(" ");
    push_left_padded(out, max_live, COUNT_WIDTH);
    out.append(" ");
    push_left_padded(out, live, COUNT_WIDTH);
    out.append("\n");
    assert(out@ =~= old(out)@ + table_line(first@, total@, max_live@, live@, width as nat));
}

/// Some line of `rows` is for the name.
pub open spec fn names(rows: Seq<Stats>, name: Seq<char>) -> bool {
    exists|i: int| 0 <= i < rows.len() && name_bytes((#[trigger] rows[i]).name@) == name_bytes(name)
}

/// Some line of `rows` holds the entry.
pub open spec fn lists(rows: Seq<Stats>, entry: (Seq<char>, usize, usize, usize)) -> bool {
    exists|i: int| 0 <= i < rows.len() && (#[trigger] rows[i]).held() == entry
}

/// The counts of a registry at one moment, one line for each name, in the
/// order of the names.
pub struct Report {
    by_type: Vec<Stats>,
}

impl Report {
    /// The lines, from the top.
    pub closed spec fn rows(&self) -> Seq<Stats> {
        self.by_type@
    }

    /// The counts that `registry` holds now: the lines are in the order
    /// of their names, each line is an entry of the registry, and each
    /// name in the registry has its line. Where two keys go by one name,
    /// the line is that of one of them.
    pub fn new(registry: &Registry) -> (report: Self)
        ensures
            sorted(report.rows()),
            forall|i: int|
                0 <= i < report.rows().len() ==> registry.holds_entry(
                    (#[trigger] report.rows()[i]).held(),
                ),
            forall|key: u64| #[trigger]
                registry.stats().contains_key(key) ==> names(report.rows(), registry.stats()[key].0),
    {
        let all = registry.snapshot();
        let mut rows: Vec<Stats> = Vec::new();
        let mut n: usize = 0;
        while n < all.len()
            invariant
                n <= all@.len(),
                sorted(rows@),
                forall|i: int| 0 <= i < rows@.len() ==> lists(all@, (#[trigger] rows@[i]).held()),
                forall|j: int| 0 <= j < n ==> names(rows@, (#[trigger] all@[j]).name@),
            decreases all@.len() - n,
        {
            let row = Stats {
                name: all[n].name.clone(),
                total: all[n].total,
                max_live: all[n].max_live,
                live: all[n].live,
            };
            let ghost before = rows@;
            let at = place(&mut rows, row);
            proof {
                assert(row.held() == all@[n as int].held());
                assert forall|i: int| 0 <= i < rows@.len() implies lists(
                    all@,
                    (#[trigger] rows@[i]).held(),
                ) by {
                    if i == at {
                    } else if rows@ == before.insert(at as int, row) {
                        if i < at {
                            let _ = before[i];
                        } else {
                            let _ = before[i - 1];
                        }
                    } else {
                        let _ = before[i];
                    }
                }
                assert forall|j: int| 0 <= j < n + 1 implies names(
                    rows@,
                    (#[trigger] all@[j]).name@,
                ) by {
                    if j == n {
                        assert(name_bytes(rows@[at as int].name@) == name_bytes(all@[j].name@));
                    } else {
                        let i = choose|i: int|
                            0 <= i < before.len() && name_bytes((#[trigger] before[i]).name@)
                                == name_bytes(all@[j].name@);
                        if rows@ == before.insert(at as int, row) {
                            if i < at {
                                assert(rows@[i] == before[i]);
                            } else {
                                assert(rows@[i + 1] == before[i]);
                            }
                        } else {
                            if i == at {
                                assert(name_bytes(rows@[at as int].name@) == name_bytes(
                                    all@[j].name@,
                                ));
                            } else {
                                assert(rows@[i] == before[i]);
                            }
                        }
                    }
                }
            }
            n += 1;
        }
        proof {
            assert forall|i: int| 0 <= i < rows@.len() implies registry.holds_entry(
                (#[trigger] rows@[i]).held(),
            ) by {
                let j = choose|j: int| 0 <= j < all@.len() && (#[trigger] all@[j]).held() == rows@[i].held();
                assert(registry.holds_entry(all@[j].held()));
            }
            assert forall|key: u64| #[trigger] registry.stats().contains_key(key) implies names(
                rows@,
                registry.stats()[key].0,
            ) by {
                let j = choose|j: int|
                    0 <= j < all@.len() && (#[trigger] all@[j]).held() == registry.stats()[key];
                assert(names(rows@, all@[j].name@));
            }
        }
        Report { by_type: rows }
    }

    /// The width of the column of names.
    fn width(&self) -> (width: usize)
        ensures
            width == name_width(self.rows()),
    {
        let mut width: usize = NAME_WIDTH;
        let mut n: usize = 0;
        assert(self.by_type@.take(0) =~= Seq::<Stats>::empty());
        while n < self.by_type.len()
            invariant
                n <= self.by_type@.len(),
                width == name_width(self.by_type@.take(n as int)),
            decreases self.by_type@.len() - n,
        {
            let len = self.by_type[n].name.as_str().as_bytes().len();
            proof {
                let upto = self.by_type@.take(n + 1);
                assert(upto.drop_last() =~= self.by_type@.take(n as int));
                assert(upto.last() == self.by_type@[n as int]);
            }
            if len > width {
                width = len;
            }
            n += 1;
        }
        assert(self.by_type@.take(n as int) =~= self.by_type@);
        width
    }

    /// The table as text.
    pub fn to_string(&self) -> (text: String)
        ensures
            text@ == table(self.rows()),
    {
        let width = self.width();
        let mut text = String::new();
        push_line(&mut text, "", "total", "max_live", "live", width);
        let ghost head = text@;
        assert(head =~= table_line(""@, "total"@, "max_live"@, "live"@, width as nat));
        let mut n: usize = 0;
        assert(self.by_type@.take(0) =~= Seq::<Stats>::empty());
        assert(text@ =~= head + table_body(self.by_type@.take(0), width as nat));
        while n < self.by_type.len()
            invariant
                n <= self.by_type@.len(),
                text@ == head + table_body(self.by_type@.take(n as int), width as nat),
            decreases self.by_type@.len() - n,
        {
            let row = &self.by_type[n];
            let total = decimal_string(row.total);
            let max_live = decimal_string(row.max_live);
            let live = decimal_string(row.live);
            push_line(
                &mut text,
                row.name.as_str(),
                total.as_str(),
                max_live.as_str(),
                live.as_str(),
                width,
            );
            proof {
                let upto = self.by_type@.take(n + 1);
                assert(upto.drop_last() =~= self.by_type@.take(n as int));
                assert(upto.last() == self.by_type@[n as int]);
                assert(text@ =~= head + table_body(upto, width as nat));
            }
            n += 1;
        }
        assert(self.by_type@.take(n as int) =~= self.by_type@);
        text
    }
}

/// The counts that `registry` holds now, as a table.
pub fn report_string(registry: &Registry) -> (text: String)
    ensures
        exists|report: Report|
            text@ == table(report.rows()) && sorted(report.rows()) && (forall|i: int|
                0 <= i < report.rows().len() ==> registry.holds_entry(
                    (#[trigger] report.rows()[i]).held(),
                )) && (forall|key: u64| #[trigger]
                registry.stats().contains_key(key) ==> names(
                    report.rows(),
                    registry.stats()[key].0,
                )),
{
    let report = Report::new(registry);
    report.to_string()
}

} // verus!
