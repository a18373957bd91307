//! The report: the scraped reels without duplicates, ranked by views per
//! follower, and laid out as the three sheets of a spreadsheet.
use crate::insta::reel::{ranks_below, ratio_ranks_below, same_reel, view_count, Ratio, Reel, ReelView};
use crate::text::push_char;
use crate::time::{
    days_before, duration_debug_text, format_duration, format_local_time, local_time_text, plain_date_pattern, LocalTime,
};
use indexmap::IndexSet;
use std::cmp::Ordering;
use vstd::prelude::*;

verus! {

// ---------------------------------------------------------------------------
// The set of reels, as indexmap keeps it
// ---------------------------------------------------------------------------
#[verifier::external_type_specification]
#[verifier::external_body]
#[verifier::reject_recursive_types(T)]
#[verifier::reject_recursive_types(S)]
pub struct ExIndexSet<T, S>(IndexSet<T, S>);

/// The reels that an `IndexSet` holds, in its order.
pub uninterp spec fn reel_set_items(s: IndexSet<Reel>) -> Seq<ReelView>;

/// `IndexSet::with_capacity`: an empty set.
#[verifier::external_body]
fn reel_set_with_capacity(n: usize) -> (s: IndexSet<Reel>)
    ensures
        reel_set_items(s) == Seq::<ReelView>::empty(),
{
    IndexSet::with_capacity(n)
}

/// `IndexSet::insert`: where an equal reel is there already, the set is
/// left as it was and `false` comes back; otherwise the reel goes to the
/// end and `true` comes back. Reels are equal as `same_reel` says (the `==`
/// of `Reel`; its derived `Hash` agrees, a date hashing as its instant).
#[verifier::external_body]
fn reel_set_insert(s: &mut IndexSet<Reel>, reel: Reel) -> (added: bool)
    ensures
        added == !holds_same_reel(reel_set_items(*old(s)), reel@),
        added ==> reel_set_items(*final(s)) == reel_set_items(*old(s)).push(reel@),
        !added ==> reel_set_items(*final(s)) == reel_set_items(*old(s)),
{
    s.insert(reel)
}

/// `IndexSet::len`.
#[verifier::external_body]
fn reel_set_len(s: &IndexSet<Reel>) -> (n: usize)
    ensures
        n == reel_set_items(*s).len(),
{
    s.len()
}

/// `IndexSet::sort_unstable_by` with the rank order: the same reels,
/// in an order where none ranks below one before it. The order among
/// reels of equal rank is not stated (the sort is unstable). The
/// comparison is a total order (`law_rank_order_is_strict_weak`), as the
/// sort needs.
#[verifier::external_body]
fn reel_set_sort_by_rank(s: &mut IndexSet<Reel>)
    ensures
        reel_set_items(*final(s)).to_multiset() == reel_set_items(*old(s)).to_multiset(),
        ascending_by_rank(reel_set_items(*final(s))),
{
    s.sort_unstable_by(|a, b| rank_ordering(a, b))
}

/// `IndexSet::reverse`.
#[verifier::external_body]
fn reel_set_reverse(s: &mut IndexSet<Reel>)
    ensures
        reel_set_items(*final(s)) == reel_set_items(*old(s)).reverse(),
{
    s.reverse()
}

/// `IndexSet::into_iter`, collected: the reels in the set's order.
#[verifier::external_body]
fn reel_set_into_vec(s: IndexSet<Reel>) -> (v: Vec<Reel>)
    ensures
        v@.map_values(|r: Reel| r@) == reel_set_items(s),
{
    s.into_iter().collect()
}

/// The order of two reels by rank, as the sort asks for it.
pub fn rank_ordering(a: &Reel, b: &Reel) -> (o: Ordering)
    ensures
        o == Ordering::Less <==> ranks_below(a@.ratio, b@.ratio),
        o == Ordering::Greater <==> ranks_below(b@.ratio, a@.ratio),
{
    proof {
        crate::insta::reel::law_rank_order_is_strict_weak(a.ratio, b.ratio, a.ratio);
        crate::insta::reel::law_rank_order_is_strict_weak(a.ratio, b.ratio, b.ratio);
    }
    if ratio_ranks_below(&a.ratio, &b.ratio) {
        Ordering::Less
    } else if ratio_ranks_below(&b.ratio, &a.ratio) {
        Ordering::Greater
    } else {
        Ordering::Equal
    }
}

/// No reel ranks below one that comes before it.
pub open spec fn ascending_by_rank(s: Seq<ReelView>) -> bool {
    forall|i: int, j: int| 0 <= i < j < s.len() ==> !ranks_below(#[trigger] s[j].ratio, #[trigger] s[i].ratio)
}

/// No reel ranks above one that comes before it.
pub open spec fn descending_by_rank(s: Seq<ReelView>) -> bool {
    forall|i: int, j: int| 0 <= i < j < s.len() ==> !ranks_below(#[trigger] s[i].ratio, #[trigger] s[j].ratio)
}

/// In ranked reels (as `ReelSet::rank` leaves them, best first) a reel
/// never comes after one with fewer views per follower: of two reels with
/// ratios over some followers, the earlier has at least as many views per
/// follower as the later.
pub proof fn law_ranked_reels_descend_by_views_per_follower(s: Seq<ReelView>, i: int, j: int)
    requires
        descending_by_rank(s),
        0 <= i < j < s.len(),
        s[i].ratio matches Some(a) && a.followers > 0,
        s[j].ratio matches Some(b) && b.followers > 0,
    ensures
        s[j].ratio->0.views * s[i].ratio->0.followers <= s[i].ratio->0.views * s[j].ratio->0.followers,
{
    crate::insta::reel::law_rank_follows_views_per_follower(s[i].ratio->0, s[j].ratio->0);
    assert(!ranks_below(s[i].ratio, s[j].ratio));
}

/// Some reel of `s` is the same as `r`.
pub open spec fn holds_same_reel(s: Seq<ReelView>, r: ReelView) -> bool {
    exists|i: int| 0 <= i < s.len() && same_reel(#[trigger] s[i], r)
}

/// No two reels of `s` are the same.
pub open spec fn distinct_reels(s: Seq<ReelView>) -> bool {
    forall|i: int, j: int|
        0 <= i < s.len() && 0 <= j < s.len() && i != j ==> !same_reel(#[trigger] s[i], #[trigger] s[j])
}

/// The reels gathered from the workers, each at most once, in the order in
/// which they arrived until they are ranked.
pub struct ReelSet {
    reels: IndexSet<Reel>,
}

impl View for ReelSet {
    type V = Seq<ReelView>;

    closed spec fn view(&self) -> Seq<ReelView> {
        reel_set_items(self.reels)
    }
}

impl ReelSet {
    /// An empty set, with room for three hundred reels.
    pub fn new() -> (s: ReelSet)
        ensures
            s@ == Seq::<ReelView>::empty(),
            distinct_reels(s@),
    {
        ReelSet { reels: reel_set_with_capacity(300) }
    }

    /// Adds a reel unless an equal one is there already; tells whether it
    /// was added.
    pub fn insert(&mut self, reel: Reel) -> (added: bool)
        ensures
            added == !holds_same_reel(old(self)@, reel@),
            added ==> final(self)@ == old(self)@.push(reel@),
            !added ==> final(self)@ == old(self)@,
            distinct_reels(old(self)@) ==> distinct_reels(final(self)@),
    {
        let ghost before = self@;
        let ghost r = reel@;
        let added = reel_set_insert(&mut self.reels, reel);
        proof {
            if distinct_reels(before) {
                law_gathered_reels_are_distinct(before, r, self@);
            }
        }
        added
    }

    /// The number of reels in the set.
    pub fn len(&self) -> (n: usize)
        ensures
            n == self@.len(),
    {
        reel_set_len(&self.reels)
    }

    /// Whether the set holds no reel.
    pub fn is_empty(&self) -> (b: bool)
        ensures
            b == (self@.len() == 0),
    {
        reel_set_len(&self.reels) == 0
    }

    /// Puts the reels in rank order, best first: sorted by rank, then
    /// reversed.
    pub fn rank(&mut self)
        ensures
            final(self)@.to_multiset() == old(self)@.to_multiset(),
            descending_by_rank(final(self)@),
            distinct_reels(old(self)@) ==> distinct_reels(final(self)@),
    {
        let ghost before = self@;
        reel_set_sort_by_rank(&mut self.reels);
        let ghost sorted = reel_set_items(self.reels);
        reel_set_reverse(&mut self.reels);
        proof {
            sorted.lemma_reverse_to_multiset();
            let r = reel_set_items(self.reels);
            assert forall|i: int, j: int| 0 <= i < j < r.len() implies !ranks_below(
                #[trigger] r[i].ratio,
                #[trigger] r[j].ratio,
            ) by {
                assert(r[i] == sorted[sorted.len() - 1 - i]);
                assert(r[j] == sorted[sorted.len() - 1 - j]);
            }
            if distinct_reels(before) {
                law_ranking_keeps_reels_distinct(before, r);
            }
        }
    }

    /// The reels, in the set's order.
    pub fn into_vec(self) -> (v: Vec<Reel>)
        ensures
            v@.map_values(|r: Reel| r@) == self@,
    {
        reel_set_into_vec(self.reels)
    }
}

/// Gathering reels into a set keeps each reel at most once: a reel the
/// same as one already there leaves the set as it was, any other is added,
/// and either way the set then holds a reel the same as it.
pub proof fn law_gathered_reels_are_distinct(before: Seq<ReelView>, reel: ReelView, after: Seq<ReelView>)
    requires
        distinct_reels(before),
        holds_same_reel(before, reel) ==> after == before,
        !holds_same_reel(before, reel) ==> after == before.push(reel),
    ensures
        distinct_reels(after),
        holds_same_reel(after, reel),
{
    if !holds_same_reel(before, reel) {
        assert forall|i: int, j: int|
            0 <= i < after.len() && 0 <= j < after.len() && i != j implies !same_reel(
            #[trigger] after[i],
            #[trigger] after[j],
        ) by {
            if i == before.len() as int {
                assert(before[j] == after[j]);
                assert(!same_reel(before[j], reel));
            } else if j == before.len() as int {
                assert(before[i] == after[i]);
                assert(!same_reel(before[i], reel));
            } else {
                assert(before[i] == after[i] && before[j] == after[j]);
            }
        }
        assert(after[before.len() as int] == reel);
        assert(same_reel(after[before.len() as int], reel));
    }
}

/// Ranking keeps a set of distinct reels distinct, and holds the same reels.
pub proof fn law_ranking_keeps_reels_distinct(before: Seq<ReelView>, after: Seq<ReelView>)
    requires
        distinct_reels(before),
        after.to_multiset() == before.to_multiset(),
    ensures
        distinct_reels(after),
        forall|r: ReelView| before.contains(r) <==> after.contains(r),
{
    broadcast use vstd::seq_lib::group_to_multiset_ensures;
    assert forall|r: ReelView| before.contains(r) <==> after.contains(r) by {
        assert(before.contains(r) <==> before.to_multiset().count(r) > 0);
        assert(after.contains(r) <==> after.to_multiset().count(r) > 0);
    }
    assert(before.no_duplicates()) by {
        assert forall|i: int, j: int| 0 <= i < before.len() && 0 <= j < before.len() && i != j implies before[i] != before[j] by {
            assert(!same_reel(before[i], before[j]));
        }
    }
    before.lemma_multiset_has_no_duplicates();
    after.lemma_multiset_has_no_duplicates_conv();
    assert forall|i: int, j: int|
        0 <= i < after.len() && 0 <= j < after.len() && i != j implies !same_reel(
        #[trigger] after[i],
        #[trigger] after[j],
    ) by {
        let x = after[i];
        let y = after[j];
        assert(x != y);
        assert(after.contains(x) && after.contains(y));
        assert(before.contains(x) && before.contains(y));
        let p = choose|p: int| 0 <= p < before.len() && before[p] == x;
        let q = choose|q: int| 0 <= q < before.len() && before[q] == y;
        assert(p != q);
        assert(!same_reel(before[p], before[q]));
    }
}

// ---------------------------------------------------------------------------
// The spreadsheet
// ---------------------------------------------------------------------------
/// One cell of a sheet.
pub enum Cell {
    /// A formula, such as a hyperlink.
    Formula(String),
    /// A piece of text.
    Text(String),
    /// A whole number.
    Number(u32),
    /// Views per follower; the spreadsheet writes it as a floating-point
    /// number, zero where there is no ratio.
    Ratio(Option<Ratio>),
    /// Yes or no.
    Bool(bool),
}

/// A cell as mathematics sees it.
pub enum CellView {
    Formula(Seq<char>),
    Text(Seq<char>),
    Number(u32),
    Ratio(Option<Ratio>),
    Bool(bool),
}

impl View for Cell {
    type V = CellView;

    open spec fn view(&self) -> CellView {
        match self {
            Cell::Formula(s) => CellView::Formula(s@),
            Cell::Text(s) => CellView::Text(s@),
            Cell::Number(n) => CellView::Number(*n),
            Cell::Ratio(r) => CellView::Ratio(*r),
            Cell::Bool(b) => CellView::Bool(*b),
        }
    }
}

/// A sheet: its name, its rows of cells (the first row names the columns),
/// and the widths that columns are given, in hundredths of an inch.
pub struct SheetPlan {
    pub name: String,
    pub rows: Vec<Vec<Cell>>,
    pub column_widths: Vec<(u32, u32)>,
}

/// The names of the columns.
pub open spec fn column_names() -> Seq<Seq<char>> {
    seq![
        "url"@,
        "ratio"@,
        "account"@,
        "like"@,
        "comments"@,
        "views"@,
        "duration"@,
        "paid partnership"@,
        "date"@,
        "caption"@,
    ]
}

/// The row that names the columns.
pub open spec fn header_row() -> Seq<CellView> {
    column_names().map_values(|n: Seq<char>| CellView::Text(n))
}

/// The spreadsheet formula that links to `url` under the label `url`.
pub open spec fn hyperlink_formula(url: Seq<char>) -> Seq<char> {
    "=HYPERLINK(\""@ + url + "\";\"url\")"@
}

/// How the sheets write a reel's date: day-month-year and the time of day.
pub const SHEET_DATE_PATTERN: &'static str = "%d-%m-%Y %H:%M:%S";

/// How the file name writes the report's day: day-month-year.
pub const FILE_DATE_PATTERN: &'static str = "%d-%m-%Y";

proof fn lemma_date_patterns_are_plain()
    ensures
        plain_date_pattern(SHEET_DATE_PATTERN@),
        plain_date_pattern(FILE_DATE_PATTERN@),
{
    reveal_strlit("%d-%m-%Y %H:%M:%S");
    reveal_strlit("%d-%m-%Y");
}

/// The row of one reel.
pub open spec fn reel_row(r: ReelView) -> Seq<CellView> {
    seq![
        CellView::Formula(hyperlink_formula(r.url)),
        CellView::Ratio(r.ratio),
        CellView::Text(r.account),
        CellView::Number(r.like as u32),
        CellView::Number(r.comments as u32),
        CellView::Number(view_count(r.views) as u32),
        CellView::Text(duration_debug_text(r.duration.secs, r.duration.nanos)),
        CellView::Bool(r.paid_partnership),
        CellView::Text(local_time_text(r.date.timestamp, r.date.offset, SHEET_DATE_PATTERN@)),
        CellView::Text(r.caption),
    ]
}

/// Every column of a sheet holds, under its name, that field of each
/// reel: the column named `like` its like count, `comments` its comment
/// count, `views` its view count (zero where it has none), `account` its
/// account, `ratio` its ratio, `paid partnership` its flag and `caption`
/// its caption (counts as the sheet's 32-bit numbers); and each reel has
/// a row of its own, one cell under each name.
pub proof fn law_columns_hold_their_fields(reels: Seq<ReelView>, k: int, c: int)
    requires
        0 <= k < reels.len(),
        0 <= c < sheet_rows(reels)[0].len(),
    ensures
        sheet_rows(reels).len() == reels.len() + 1,
        sheet_rows(reels)[k + 1].len() == sheet_rows(reels)[0].len(),
        sheet_rows(reels)[0][c] == CellView::Text("like"@) ==> sheet_rows(reels)[k + 1][c]
            == CellView::Number(reels[k].like as u32),
        sheet_rows(reels)[0][c] == CellView::Text("comments"@) ==> sheet_rows(reels)[k + 1][c]
            == CellView::Number(reels[k].comments as u32),
        sheet_rows(reels)[0][c] == CellView::Text("views"@) ==> sheet_rows(reels)[k + 1][c]
            == CellView::Number(
            match reels[k].views {
                Some(v) => v,
                None => 0,
            } as u32,
        ),
        sheet_rows(reels)[0][c] == CellView::Text("account"@) ==> sheet_rows(reels)[k + 1][c]
            == CellView::Text(reels[k].account),
        sheet_rows(reels)[0][c] == CellView::Text("ratio"@) ==> sheet_rows(reels)[k + 1][c]
            == CellView::Ratio(reels[k].ratio),
        sheet_rows(reels)[0][c] == CellView::Text("paid partnership"@) ==> sheet_rows(reels)[k
            + 1][c] == CellView::Bool(reels[k].paid_partnership),
        sheet_rows(reels)[0][c] == CellView::Text("caption"@) ==> sheet_rows(reels)[k + 1][c]
            == CellView::Text(reels[k].caption),
{
    reveal_strlit("url");
    reveal_strlit("ratio");
    reveal_strlit("account");
    reveal_strlit("like");
    reveal_strlit("comments");
    reveal_strlit("views");
    reveal_strlit("duration");
    reveal_strlit("paid partnership");
    reveal_strlit("date");
    reveal_strlit("caption");
    let rows = sheet_rows(reels);
    assert(rows[0] == header_row());
    assert(rows[k + 1] == reel_row(reels[k]));
    assert(header_row()[c] == CellView::Text(column_names()[c]));
    let names = column_names();
    assert(names[c] == "like"@ ==> c == 3) by {
        if names[c] == "like"@ && c != 3 {
            assert(names[c][0] != 'l' || names[c].len() != 4);
        }
    }
    assert(names[c] == "comments"@ ==> c == 4) by {
        if names[c] == "comments"@ && c != 4 {
            assert(names[c][0] != 'c' || names[c].len() != 8);
        }
    }
    assert(names[c] == "views"@ ==> c == 5) by {
        if names[c] == "views"@ && c != 5 {
            assert(names[c][0] != 'v' || names[c].len() != 5);
        }
    }
    assert(names[c] == "account"@ ==> c == 2) by {
        if names[c] == "account"@ && c != 2 {
            assert(names[c][0] != 'a' || names[c].len() != 7);
        }
    }
    assert(names[c] == "ratio"@ ==> c == 1) by {
        if names[c] == "ratio"@ && c != 1 {
            assert(names[c][0] != 'r' || names[c].len() != 5);
        }
    }
    assert(names[c] == "paid partnership"@ ==> c == 7) by {
        if names[c] == "paid partnership"@ && c != 7 {
            assert(names[c][0] != 'p' || names[c].len() != 16);
        }
    }
    assert(names[c] == "caption"@ ==> c == 9) by {
        if names[c] == "caption"@ && c != 9 {
            assert(names[c][0] != 'c' || names[c].len() != 7);
        }
    }
}

/// The column widths of a sheet with at least one reel, in hundredths of an
/// inch; a sheet without reels sets none.
pub open spec fn reel_column_widths() -> Seq<(u32, u32)> {
    seq![(0u32, 40u32), (2u32, 100u32), (4u32, 40u32), (6u32, 60u32), (7u32, 50u32), (8u32, 135u32), (9u32, 1500u32)]
}

/// The rows of a sheet listing `reels`, in their order, under the row of
/// column names.
pub open spec fn sheet_rows(reels: Seq<ReelView>) -> Seq<Seq<CellView>> {
    seq![header_row()] + reels.map_values(|r: ReelView| reel_row(r))
}

pub open spec fn rows_view(rows: Seq<Vec<Cell>>) -> Seq<Seq<CellView>> {
    rows.map_values(|row: Vec<Cell>| row@.map_values(|c: Cell| c@))
}

/// The sheet named `name` that lists `reels`.
pub open spec fn sheet_matches(sheet: SheetPlan, name: Seq<char>, reels: Seq<ReelView>) -> bool {
    &&& sheet.name@ == name
    &&& rows_view(sheet.rows@) == sheet_rows(reels)
    &&& sheet.column_widths@ == if reels.len() > 0 {
        reel_column_widths()
    } else {
        Seq::empty()
    }
}

fn text_cell(s: &str) -> (c: Cell)
    ensures
        c@ == CellView::Text(s@),
{
    Cell::Text(String::from_str(s))
}

fn header_cells() -> (row: Vec<Cell>)
    ensures
        row@.map_values(|c: Cell| c@) == header_row(),
{
    let mut row: Vec<Cell> = Vec::new();
    row.push(text_cell("url"));
    row.push(text_cell("ratio"));
    row.push(text_cell("account"));
    row.push(text_cell("like"));
    row.push(text_cell("comments"));
    row.push(text_cell("views"));
    row.push(text_cell("duration"));
    row.push(text_cell("paid partnership"));
    row.push(text_cell("date"));
    row.push(text_cell("caption"));
    assert(row@.map_values(|c: Cell| c@) =~= header_row());
    row
}

fn hyperlink(url: &String) -> (s: String)
    ensures
        s@ == hyperlink_formula(url@),
{
    let mut s = String::from_str("=HYPERLINK(\"");
    s.append(url.as_str());
    s.append("\";\"url\")");
    s
}

/// The cells of one reel's row.
pub fn reel_cells(r: &Reel) -> (row: Vec<Cell>)
    requires
        r@.wf(),
    ensures
        row@.map_values(|c: Cell| c@) == reel_row(r@),
{
    let mut row: Vec<Cell> = Vec::new();
    row.push(Cell::Formula(hyperlink(&r.url)));
    row.push(Cell::Ratio(r.ratio));
    row.push(Cell::Text(r.account.clone()));
    row.push(Cell::Number(r.like as u32));
    row.push(Cell::Number(r.comments as u32));
    let views: usize = match r.views {
        Some(v) => v,
        None => 0,
    };
    row.push(Cell::Number(views as u32));
    row.push(Cell::Text(format_duration(&r.duration)));
    row.push(Cell::Bool(r.paid_partnership));
    proof {
        lemma_date_patterns_are_plain();
    }
    row.push(Cell::Text(format_local_time(&r.date, SHEET_DATE_PATTERN)));
    row.push(Cell::Text(r.caption.clone()));
    assert(row@.map_values(|c: Cell| c@) =~= reel_row(r@));
    row
}

fn reel_widths() -> (w: Vec<(u32, u32)>)
    ensures
        w@ == reel_column_widths(),
{
    let mut w: Vec<(u32, u32)> = Vec::new();
    w.push((0, 40));
    w.push((2, 100));
    w.push((4, 40));
    w.push((6, 60));
    w.push((7, 50));
    w.push((8, 135));
    w.push((9, 1500));
    assert(w@ =~= reel_column_widths());
    w
}

/// The sheet named `name` that lists `reels` in their order.
pub fn write_to_sheet(name: &str, reels: &Vec<Reel>) -> (sheet: SheetPlan)
    requires
        forall|i: int| 0 <= i < reels@.len() ==> (#[trigger] reels@[i])@.wf(),
    ensures
        sheet_matches(sheet, name@, reels@.map_values(|r: Reel| r@)),
{
    let ghost want = reels@.map_values(|r: Reel| r@);
    let mut rows: Vec<Vec<Cell>> = Vec::new();
    rows.push(header_cells());
    let mut i: usize = 0;
    while i < reels.len()
        invariant
            i <= reels@.len(),
            want == reels@.map_values(|r: Reel| r@),
            forall|k: int| 0 <= k < reels@.len() ==> (#[trigger] reels@[k])@.wf(),
            rows_view(rows@) == sheet_rows(want.subrange(0, i as int)),
        decreases reels@.len() - i,
    {
        let row = reel_cells(&reels[i]);
        let ghost before = rows@;
        rows.push(row);
        proof {
            assert(want.subrange(0, i + 1) =~= want.subrange(0, i as int).push(want[i as int]));
            assert(rows_view(rows@) =~= rows_view(before).push(reel_row(want[i as int])));
            assert(sheet_rows(want.subrange(0, i + 1)) =~= sheet_rows(want.subrange(0, i as int)).push(
                reel_row(want[i as int]),
            ));
        }
        i = i + 1;
    }
    assert(want.subrange(0, reels@.len() as int) =~= want);
    let widths = if reels.len() > 0 {
        reel_widths()
    } else {
        Vec::new()
    };
    SheetPlan { name: String::from_str(name), rows, column_widths: widths }
}

// ---------------------------------------------------------------------------
// The report
// ---------------------------------------------------------------------------
/// Whether a reel was taken at or after `start` and, where `end` is given,
/// at or before it.
pub open spec fn taken_within(r: ReelView, start: i64, end: Option<i64>) -> bool {
    start <= r.date.timestamp && match end {
        Some(e) => r.date.timestamp <= e,
        None => true,
    }
}

/// The reels of `reels` taken within the window, in their order.
pub open spec fn reels_within(reels: Seq<ReelView>, start: i64, end: Option<i64>) -> Seq<ReelView> {
    reels.filter(|r: ReelView| taken_within(r, start, end))
}

/// The reels of `reels` taken within the window, in their order.
pub fn reels_taken_within(reels: &Vec<Reel>, start: i64, end: Option<i64>) -> (out: Vec<Reel>)
    ensures
        out@.map_values(|r: Reel| r@) == reels_within(reels@.map_values(|r: Reel| r@), start, end),
{
    let ghost all = reels@.map_values(|r: Reel| r@);
    let mut out: Vec<Reel> = Vec::new();
    let mut i: usize = 0;
    while i < reels.len()
        invariant
            i <= reels@.len(),
            all == reels@.map_values(|r: Reel| r@),
            out@.map_values(|r: Reel| r@) == reels_within(all.subrange(0, i as int), start, end),
        decreases reels@.len() - i,
    {
        let r = &reels[i];
        let keep = start <= r.date.timestamp && match end {
            Some(e) => r.date.timestamp <= e,
            None => true,
        };
        let ghost before = out@;
        proof {
            let p = all.subrange(0, i as int);
            let q = all.subrange(0, i + 1);
            assert(q.drop_last() =~= p);
            assert(q.last() == r@);
            reveal(Seq::filter);
        }
        if keep {
            out.push(r.duplicate());
            assert(out@.map_values(|r: Reel| r@) =~= before.map_values(|r: Reel| r@).push(r@));
        }
        i = i + 1;
    }
    assert(all.subrange(0, reels@.len() as int) =~= all);
    out
}

/// The report that is sent: the name of the spreadsheet file and its sheets.
pub struct Report {
    pub file_name: String,
    pub sheets: Vec<SheetPlan>,
}

/// Why no report is made.
#[derive(Debug, PartialEq, Eq, Structural)]
pub enum ReportError {
    /// The scrapers found no reel.
    NoReels,
}

impl ReportError {
    /// The error the run ends with.
    pub fn message(&self) -> (s: String)
        ensures
            s@ == "no reels found"@,
    {
        String::from_str("no reels found")
    }

    /// The notice sent to Telegram before the run ends.
    pub fn notice(&self) -> (s: String)
        ensures
            s@ == "instagram_reels_scraper: no reels found"@,
    {
        String::from_str("instagram_reels_scraper: no reels found")
    }
}

/// The name of the spreadsheet file for a run of the given accounts' kind,
/// on the day that starts at `today`.
pub open spec fn report_file_name(accounts_type: Seq<char>, today: LocalTime) -> Seq<char> {
    accounts_type + " reels "@ + local_time_text(today.timestamp, today.offset, FILE_DATE_PATTERN@) + ".ods"@
}

/// The report on the ranked reels, `today` being the local midnight that
/// started the day: a sheet of the reels taken since then, one of those
/// taken from the midnight before until then (both ends included), and one
/// of all the reels, each in rank order. Without any reel there is no
/// report.
pub fn build_report(ranked: &Vec<Reel>, accounts_type: &str, today: &LocalTime) -> (r: Result<
    Report,
    ReportError,
>)
    requires
        forall|i: int| 0 <= i < ranked@.len() ==> (#[trigger] ranked@[i])@.wf(),
        today.wf(),
        today.timestamp >= i64::MIN + 36500 * 86400,
    ensures
        r is Err <==> ranked@.len() == 0,
        r matches Err(e) ==> e == ReportError::NoReels,
        r matches Ok(report) ==> {
            let all = ranked@.map_values(|x: Reel| x@);
            &&& report.file_name@ == report_file_name(accounts_type@, *today)
            &&& report.sheets@.len() == 3
            &&& sheet_matches(
                report.sheets@[0],
                "today"@,
                reels_within(all, today.timestamp, None),
            )
            &&& sheet_matches(
                report.sheets@[1],
                "yesterday"@,
                reels_within(all, (today.timestamp - 86400) as i64, Some(today.timestamp)),
            )
            &&& sheet_matches(report.sheets@[2], "last month"@, all)
        },
{
    if ranked.len() == 0 {
        return Err(ReportError::NoReels);
    }
    let ghost all = ranked@.map_values(|x: Reel| x@);
    let yesterday = days_before(today.timestamp, 1);
    let todays = reels_taken_within(ranked, today.timestamp, None);
    let yesterdays = reels_taken_within(ranked, yesterday, Some(today.timestamp));
    proof {
        lemma_within_keeps_wf(all, today.timestamp, None);
        lemma_within_keeps_wf(all, yesterday, Some(today.timestamp));
        assert forall|i: int| 0 <= i < todays@.len() implies (#[trigger] todays@[i])@.wf() by {
            assert(todays@.map_values(|x: Reel| x@)[i] == todays@[i]@);
        }
        assert forall|i: int| 0 <= i < yesterdays@.len() implies (#[trigger] yesterdays@[i])@.wf() by {
            assert(yesterdays@.map_values(|x: Reel| x@)[i] == yesterdays@[i]@);
        }
    }
    let mut sheets: Vec<SheetPlan> = Vec::new();
    sheets.push(write_to_sheet("today", &todays));
    sheets.push(write_to_sheet("yesterday", &yesterdays));
    sheets.push(write_to_sheet("last month", ranked));
    let mut file_name = String::from_str(accounts_type);
    file_name.append(" reels ");
    proof {
        lemma_date_patterns_are_plain();
    }
    let day = format_local_time(today, FILE_DATE_PATTERN);
    file_name.append(day.as_str());
    file_name.append(".ods");
    Ok(Report { file_name, sheets })
}

proof fn lemma_within_keeps_wf(all: Seq<ReelView>, start: i64, end: Option<i64>)
    requires
        forall|i: int| 0 <= i < all.len() ==> (#[trigger] all[i]).wf(),
    ensures
        forall|i: int| 0 <= i < reels_within(all, start, end).len() ==> (#[trigger] reels_within(all, start, end)[i]).wf(),
{
    let pred = |r: ReelView| taken_within(r, start, end);
    broadcast use vstd::seq_lib::group_filter_ensures;
    assert forall|i: int| 0 <= i < reels_within(all, start, end).len() implies (#[trigger] reels_within(all, start, end)[i]).wf() by {
        let x = reels_within(all, start, end)[i];
        assert(all.filter(pred).contains(x));
        all.lemma_filter_contains_rev(pred, x);
        assert(all.contains(x));
    }
}

/// The day sheets are drawn from the ranked reels: each lists only reels
/// of the ranked list that were taken in its window, keeps their rank
/// order, and leaves out none of them. A reel taken exactly at midnight is
/// listed both as today's and as yesterday's.
pub proof fn law_day_sheets_follow_the_ranking(all: Seq<ReelView>, start: i64, end: Option<i64>)
    requires
        descending_by_rank(all),
    ensures
        descending_by_rank(reels_within(all, start, end)),
        forall|r: ReelView| #[trigger] reels_within(all, start, end).contains(r) <==> all.contains(r)
            && taken_within(r, start, end),
        forall|r: ReelView, today: i64| r.date.timestamp == today && today - 86400 >= i64::MIN
            ==> taken_within(r, today, None) && taken_within(r, (today - 86400) as i64, Some(today)),
    decreases all.len(),
{
    let pred = |r: ReelView| taken_within(r, start, end);
    broadcast use vstd::seq_lib::group_filter_ensures;
    reveal(Seq::filter);
    if all.len() > 0 {
        let init = all.drop_last();
        assert(descending_by_rank(init)) by {
            assert forall|i: int, j: int| 0 <= i < j < init.len() implies !ranks_below(
                #[trigger] init[i].ratio,
                #[trigger] init[j].ratio,
            ) by {
                assert(init[i] == all[i] && init[j] == all[j]);
            }
        }
        law_day_sheets_follow_the_ranking(init, start, end);
        let f = reels_within(init, start, end);
        let last = all.last();
        if pred(last) {
            assert(reels_within(all, start, end) == f.push(last));
            assert forall|i: int, j: int| 0 <= i < j < f.push(last).len() implies !ranks_below(
                #[trigger] f.push(last)[i].ratio,
                #[trigger] f.push(last)[j].ratio,
            ) by {
                if j == f.len() {
                    let x = f[i];
                    assert(f.contains(x));
                    assert(init.contains(x));
                    let k = choose|k: int| 0 <= k < init.len() && init[k] == x;
                    assert(all[k] == x);
                    assert(all[all.len() - 1] == last);
                } else {
                    assert(f.push(last)[i] == f[i]);
                    assert(f.push(last)[j] == f[j]);
                }
            }
        } else {
            assert(reels_within(all, start, end) == f);
        }
        assert forall|r: ReelView| #[trigger] reels_within(all, start, end).contains(r) <==> all.contains(r)
            && taken_within(r, start, end) by {
            if all.contains(r) && r != last {
                let k = choose|k: int| 0 <= k < all.len() && all[k] == r;
                assert(k < all.len() - 1);
                assert(init[k] == r);
                assert(init.contains(r));
            }
            if init.contains(r) {
                let k = choose|k: int| 0 <= k < init.len() && init[k] == r;
                assert(all[k] == r);
            }
            if pred(last) {
                assert(f.push(last)[f.len() as int] == last);
                if f.contains(r) {
                    let k = choose|k: int| 0 <= k < f.len() && f[k] == r;
                    assert(f.push(last)[k] == r);
                }
                if f.push(last).contains(r) {
                    let k = choose|k: int| 0 <= k < f.push(last).len() && f.push(last)[k] == r;
                    if k < f.len() {
                        assert(f[k] == r);
                    }
                }
            }
            assert(all[all.len() - 1] == last);
        }
    } else {
        assert(reels_within(all, start, end) =~= all);
    }
}

} // verus!
