//! A reel, how it is built from the fields of an Instagram media item, and
//! the order in which reels are ranked.
use crate::time::{
    local_offset_at, offset_in_range, timestamp_is_valid, timestamp_valid, LocalTime, ReelDuration,
    MAX_TIMESTAMP, MIN_TIMESTAMP,
};
use crate::json::{
    bool_of, element, field, i64_of, json_bool, json_document, json_element, json_field, json_i64,
    json_seconds, json_text, json_u64, or_null, parse_json, seconds_of, text_of, u64_of, Json,
};
use vstd::prelude::*;

verus! {

/// Views per follower, kept as the two counts it is the quotient of.
#[derive(Clone, Copy, Debug, PartialEq, Eq, Structural)]
pub struct Ratio {
    pub views: usize,
    pub followers: usize,
}

impl Ratio {
    /// What a ratio is hashed by: whether it has no followers and whether
    /// it has no views. Ratios of equal value share it (see
    /// `law_equal_ratios_share_hash_key`).
    pub fn hash_key(&self) -> (k: (bool, bool))
        ensures
            k == (self.followers == 0, self.views == 0),
    {
        (self.followers == 0, self.views == 0)
    }
}

/// A ratio hashes by its `hash_key`, so that ratios of equal value, which
/// make reels equal, hash alike.
impl std::hash::Hash for Ratio {
    /// `Hash::hash` of the `hash_key` alone.
    #[verifier::external_body]
    fn hash<H: std::hash::Hasher>(&self, state: &mut H) {
        self.hash_key().hash(state)
    }
}

/// One scraped reel.
#[derive(Debug, Hash)]
pub struct Reel {
    pub url: String,
    pub ratio: Option<Ratio>,
    pub account: String,
    pub like: usize,
    pub comments: usize,
    pub views: Option<usize>,
    pub duration: ReelDuration,
    pub date: LocalTime,
    pub paid_partnership: bool,
    pub caption: String,
}

/// A reel as mathematics sees it: its texts as character sequences.
pub struct ReelView {
    pub url: Seq<char>,
    pub ratio: Option<Ratio>,
    pub account: Seq<char>,
    pub like: usize,
    pub comments: usize,
    pub views: Option<usize>,
    pub duration: ReelDuration,
    pub date: LocalTime,
    pub paid_partnership: bool,
    pub caption: Seq<char>,
}

impl View for Reel {
    type V = ReelView;

    open spec fn view(&self) -> ReelView {
        ReelView {
            url: self.url@,
            ratio: self.ratio,
            account: self.account@,
            like: self.like,
            comments: self.comments,
            views: self.views,
            duration: self.duration,
            date: self.date,
            paid_partnership: self.paid_partnership,
            caption: self.caption@,
        }
    }
}

impl ReelView {
    /// The reel's duration and date can be formatted.
    pub open spec fn wf(self) -> bool {
        self.duration.wf() && self.date.wf()
    }
}

fn same_ratio(a: &Option<Ratio>, b: &Option<Ratio>) -> (r: bool)
    ensures
        r == same_ratio_value(*a, *b),
{
    match (a, b) {
        (Some(_), Some(_)) => !ratio_ranks_below(a, b) && !ratio_ranks_below(b, a),
        (None, None) => true,
        _ => false,
    }
}

fn same_views(a: &Option<usize>, b: &Option<usize>) -> (r: bool)
    ensures
        r == (*a == *b),
{
    match (a, b) {
        (Some(x), Some(y)) => *x == *y,
        (None, None) => true,
        _ => false,
    }
}

impl PartialEq for Reel {
    fn eq(&self, other: &Self) -> (r: bool) {
        self.url == other.url && same_ratio(&self.ratio, &other.ratio) && self.account
            == other.account && self.like == other.like && self.comments == other.comments
            && same_views(&self.views, &other.views) && self.duration.secs == other.duration.secs
            && self.duration.nanos == other.duration.nanos && self.date.timestamp
            == other.date.timestamp && self.paid_partnership == other.paid_partnership && self.caption == other.caption
    }
}

impl vstd::std_specs::cmp::PartialEqSpecImpl for Reel {
    open spec fn obeys_eq_spec() -> bool {
        true
    }

    open spec fn eq_spec(&self, other: &Self) -> bool {
        same_reel(self@, other@)
    }
}

impl Eq for Reel {

}

/// Two ratios are equal when both are missing, or both are there and
/// neither ranks below the other: as quotients they are the same number
/// (two ratios without views or followers are alike, as are two with views
/// but no followers).
pub open spec fn same_ratio_value(a: Option<Ratio>, b: Option<Ratio>) -> bool {
    match (a, b) {
        (Some(_), Some(_)) => !ranks_below(a, b) && !ranks_below(b, a),
        (None, None) => true,
        _ => false,
    }
}

/// Ranking follows views per follower: of two ratios over some followers,
/// one ranks below the other exactly when it has fewer views per follower
/// (`a.views / a.followers < b.views / b.followers`, compared without
/// rounding); a ratio with views but no followers (an infinite one) ranks
/// above every ratio over some followers.
pub proof fn law_rank_follows_views_per_follower(a: Ratio, b: Ratio)
    ensures
        a.followers > 0 && b.followers > 0 ==> (ranks_below(Some(a), Some(b)) <==> a.views
            * b.followers < b.views * a.followers),
        a.followers > 0 && b.followers > 0 && a.views * b.followers == b.views * a.followers
            ==> !ranks_below(Some(a), Some(b)) && !ranks_below(Some(b), Some(a)),
        a.followers > 0 && b.followers == 0 && b.views > 0 ==> ranks_below(Some(a), Some(b)),
{
}

/// Reels being the same is an equivalence: every reel is the same as
/// itself, and sameness is symmetric and transitive (as a set of reels
/// needs of its equality).
pub proof fn law_same_reel_is_equivalence(a: ReelView, b: ReelView, c: ReelView)
    ensures
        same_reel(a, a),
        same_reel(a, b) ==> same_reel(b, a),
        same_reel(a, b) && same_reel(b, c) ==> same_reel(a, c),
{
    law_rank_order_is_strict_weak(a.ratio, b.ratio, c.ratio);
    law_rank_order_is_strict_weak(c.ratio, b.ratio, a.ratio);
}

/// Ratios of equal value have the same hash key.
pub proof fn law_equal_ratios_share_hash_key(a: Ratio, b: Ratio)
    requires
        same_ratio_value(Some(a), Some(b)),
    ensures
        (a.followers == 0, a.views == 0) == (b.followers == 0, b.views == 0),
{
    if a.followers > 0 && b.followers > 0 {
        assert(a.views * b.followers == b.views * a.followers);
        if a.views == 0 {
            assert(b.views * a.followers == 0);
            assert(b.views == 0) by (nonlinear_arith)
                requires
                    b.views * a.followers == 0,
                    a.followers > 0,
            ;
        }
        if b.views == 0 {
            assert(a.views * b.followers == 0);
            assert(a.views == 0) by (nonlinear_arith)
                requires
                    a.views * b.followers == 0,
                    b.followers > 0,
            ;
        }
    }
}

/// Two reels are the same when all their fields are, their ratios being
/// compared by value (see `same_ratio_value`) and their dates as instants
/// (as chrono compares local dates): the UTC offset at which a date is
/// seen does not count.
pub open spec fn same_reel(a: ReelView, b: ReelView) -> bool {
    &&& a.url == b.url
    &&& same_ratio_value(a.ratio, b.ratio)
    &&& a.account == b.account
    &&& a.like == b.like
    &&& a.comments == b.comments
    &&& a.views == b.views
    &&& a.duration == b.duration
    &&& a.date.timestamp == b.date.timestamp
    &&& a.paid_partnership == b.paid_partnership
    &&& a.caption == b.caption
}

impl Reel {
    /// A copy of the reel.
    pub fn duplicate(&self) -> (r: Reel)
        ensures
            r@ == self@,
    {
        Reel {
            url: self.url.clone(),
            ratio: self.ratio,
            account: self.account.clone(),
            like: self.like,
            comments: self.comments,
            views: self.views,
            duration: self.duration,
            date: self.date,
            paid_partnership: self.paid_partnership,
            caption: self.caption.clone(),
        }
    }

    /// Records the reel's views per follower for an account with
    /// `followers_count` followers; a reel without a view count counts as
    /// having none.
    pub fn set_ratio(&mut self, followers_count: usize)
        ensures
            final(self)@ == (ReelView {
                ratio: Some(Ratio { views: view_count(old(self)@.views), followers: followers_count }),
                ..old(self)@
            }),
    {
        let views = match self.views {
            Some(v) => v,
            None => 0,
        };
        self.ratio = Some(Ratio { views: views, followers: followers_count });
    }
}

/// The view count, zero where there is none.
pub open spec fn view_count(views: Option<usize>) -> usize {
    match views {
        Some(v) => v,
        None => 0,
    }
}

// ---------------------------------------------------------------------------
// Ranking
// ---------------------------------------------------------------------------
/// The class of a ratio in the order of floating-point ranks: a reel with
/// neither views nor followers ranks below every other (its ratio is not a
/// number), one with views but no followers above every other (its ratio is
/// infinite), and every other reel in between, by its ratio. A reel without
/// a ratio ranks as a ratio of zero.
pub open spec fn rank_class(r: Option<Ratio>) -> int {
    match r {
        Some(q) => if q.followers == 0 {
            if q.views == 0 {
                0
            } else {
                2
            }
        } else {
            1
        },
        None => 1,
    }
}

/// Numerator of a ratio of the middle class.
pub open spec fn rank_num(r: Option<Ratio>) -> int {
    match r {
        Some(q) => if q.followers > 0 {
            q.views as int
        } else {
            0
        },
        None => 0,
    }
}

/// Denominator of a ratio of the middle class.
pub open spec fn rank_den(r: Option<Ratio>) -> int {
    match r {
        Some(q) => if q.followers > 0 {
            q.followers as int
        } else {
            1
        },
        None => 1,
    }
}

/// `a` ranks strictly below `b`. Ratios of the middle class are compared
/// as exact fractions. A ranking by single-precision quotients agrees with
/// this order wherever both quotients are exact, but where counts run above
/// 2^24 two close ratios can round to one quotient, or to quotients in the
/// other order, and are then ranked as equal or the other way round.
pub open spec fn ranks_below(a: Option<Ratio>, b: Option<Ratio>) -> bool {
    rank_class(a) < rank_class(b) || (rank_class(a) == 1 && rank_class(b) == 1 && rank_num(a)
        * rank_den(b) < rank_num(b) * rank_den(a))
}

/// Whether ratio `a` ranks strictly below ratio `b`.
pub fn ratio_ranks_below(a: &Option<Ratio>, b: &Option<Ratio>) -> (r: bool)
    ensures
        r == ranks_below(*a, *b),
{
    let ca = class_of(a);
    let cb = class_of(b);
    if ca != cb {
        return ca < cb;
    }
    if ca != 1 {
        return false;
    }
    let (na, da) = fraction_of(a);
    let (nb, db) = fraction_of(b);
    let (xa, ya, xb, yb) = (na as u128, da as u128, nb as u128, db as u128);
    proof {
        lemma_product_fits(xa, yb);
        lemma_product_fits(xb, ya);
    }
    let left: u128 = xa * yb;
    let right: u128 = xb * ya;
    left < right
}

proof fn lemma_product_fits(x: u128, y: u128)
    requires
        x <= u64::MAX,
        y <= u64::MAX,
    ensures
        x * y <= u128::MAX,
{
    assert(x * y <= u64::MAX * u64::MAX) by (nonlinear_arith)
        requires
            x <= u64::MAX,
            y <= u64::MAX,
    ;
}

fn class_of(a: &Option<Ratio>) -> (c: u8)
    ensures
        c as int == rank_class(*a),
{
    match a {
        Some(q) => if q.followers == 0 {
            if q.views == 0 {
                0
            } else {
                2
            }
        } else {
            1
        },
        None => 1,
    }
}

fn fraction_of(a: &Option<Ratio>) -> (f: (usize, usize))
    ensures
        f.0 as int == rank_num(*a),
        f.1 as int == rank_den(*a),
{
    match a {
        Some(q) => if q.followers > 0 {
            (q.views, q.followers)
        } else {
            (0, 1)
        },
        None => (0, 1),
    }
}

proof fn lemma_fraction_order(n1: int, d1: int, n2: int, d2: int, n3: int, d3: int)
    requires
        d1 > 0,
        d2 > 0,
        d3 > 0,
    ensures
        n1 * d2 < n2 * d1 && n2 * d3 < n3 * d2 ==> n1 * d3 < n3 * d1,
        n1 * d2 <= n2 * d1 && n2 * d3 <= n3 * d2 ==> n1 * d3 <= n3 * d1,
{
    if n1 * d2 < n2 * d1 && n2 * d3 < n3 * d2 {
        assert(n1 * d2 * d3 < n2 * d1 * d3) by (nonlinear_arith)
            requires
                n1 * d2 < n2 * d1,
                d3 > 0,
        ;
        assert(n2 * d3 * d1 < n3 * d2 * d1) by (nonlinear_arith)
            requires
                n2 * d3 < n3 * d2,
                d1 > 0,
        ;
        assert(n1 * d3 * d2 < n3 * d1 * d2) by (nonlinear_arith)
            requires
                n1 * d2 * d3 < n2 * d1 * d3,
                n2 * d3 * d1 < n3 * d2 * d1,
        ;
        assert(n1 * d3 < n3 * d1) by (nonlinear_arith)
            requires
                n1 * d3 * d2 < n3 * d1 * d2,
                d2 > 0,
        ;
    }
    if n1 * d2 <= n2 * d1 && n2 * d3 <= n3 * d2 {
        assert(n1 * d2 * d3 <= n2 * d1 * d3) by (nonlinear_arith)
            requires
                n1 * d2 <= n2 * d1,
                d3 > 0,
        ;
        assert(n2 * d3 * d1 <= n3 * d2 * d1) by (nonlinear_arith)
            requires
                n2 * d3 <= n3 * d2,
                d1 > 0,
        ;
        assert(n1 * d3 * d2 <= n3 * d1 * d2) by (nonlinear_arith)
            requires
                n1 * d2 * d3 <= n2 * d1 * d3,
                n2 * d3 * d1 <= n3 * d2 * d1,
        ;
        assert(n1 * d3 <= n3 * d1) by (nonlinear_arith)
            requires
                n1 * d3 * d2 <= n3 * d1 * d2,
                d2 > 0,
        ;
    }
}

/// The rank order is a strict weak order: no ratio ranks below itself,
/// ranking below is transitive, and so is ranking not above.
pub proof fn law_rank_order_is_strict_weak(a: Option<Ratio>, b: Option<Ratio>, c: Option<Ratio>)
    ensures
        !ranks_below(a, a),
        ranks_below(a, b) && ranks_below(b, c) ==> ranks_below(a, c),
        !ranks_below(b, a) && !ranks_below(c, b) ==> !ranks_below(c, a),
{
    assert(rank_den(a) > 0 && rank_den(b) > 0 && rank_den(c) > 0);
    lemma_fraction_order(rank_num(a), rank_den(a), rank_num(b), rank_den(b), rank_num(c), rank_den(c));
    lemma_fraction_order(rank_num(c), rank_den(c), rank_num(b), rank_den(b), rank_num(a), rank_den(a));
}

// ---------------------------------------------------------------------------
// Building a reel from a media item
// ---------------------------------------------------------------------------
/// What the scraper reads of an Instagram media item: each field as the
/// JSON reader hands it over, `None` where the item has no value of that
/// kind there.
pub struct MediaFields {
    /// `code`, as a string.
    pub code: Option<String>,
    /// `like_count`, as an unsigned integer.
    pub like_count: Option<u64>,
    /// `comment_count`, as an unsigned integer.
    pub comment_count: Option<u64>,
    /// `play_count`, as an unsigned integer.
    pub play_count: Option<u64>,
    /// `caption.text`, as a string.
    pub caption_text: Option<String>,
    /// `video_duration`, as a duration.
    pub video_duration: Option<ReelDuration>,
    /// `taken_at`, as a signed integer of seconds since the Unix epoch.
    pub taken_at: Option<i64>,
    /// `user.username`, as a string.
    pub username: Option<String>,
    /// `is_paid_partnership`, as a boolean.
    pub is_paid_partnership: Option<bool>,
}

/// The fields of a media item as mathematics sees them.
pub struct MediaFieldsView {
    pub code: Option<Seq<char>>,
    pub like_count: Option<u64>,
    pub comment_count: Option<u64>,
    pub play_count: Option<u64>,
    pub caption_text: Option<Seq<char>>,
    pub video_duration: Option<ReelDuration>,
    pub taken_at: Option<i64>,
    pub username: Option<Seq<char>>,
    pub is_paid_partnership: Option<bool>,
}

pub open spec fn text_view(o: Option<String>) -> Option<Seq<char>> {
    match o {
        Some(s) => Some(s@),
        None => None,
    }
}

impl View for MediaFields {
    type V = MediaFieldsView;

    open spec fn view(&self) -> MediaFieldsView {
        MediaFieldsView {
            code: text_view(self.code),
            like_count: self.like_count,
            comment_count: self.comment_count,
            play_count: self.play_count,
            caption_text: text_view(self.caption_text),
            video_duration: self.video_duration,
            taken_at: self.taken_at,
            username: text_view(self.username),
            is_paid_partnership: self.is_paid_partnership,
        }
    }
}

impl MediaFieldsView {
    /// Every field that a reel cannot do without is there.
    pub open spec fn complete(self) -> bool {
        &&& self.code is Some
        &&& self.like_count is Some
        &&& self.comment_count is Some
        &&& self.video_duration is Some
        &&& self.video_duration->0.wf()
        &&& self.taken_at is Some
        &&& self.username is Some
        &&& self.is_paid_partnership is Some
    }
}

/// The address of the reel whose short code is `code`.
pub open spec fn reel_url(code: Seq<char>) -> Seq<char> {
    "https://www.instagram.com/reel/"@ + code + "/"@
}

/// The instant a media item was taken at: its `taken_at`, or the Unix epoch
/// where chrono has no date for it.
pub open spec fn media_timestamp(taken_at: i64) -> i64 {
    if timestamp_valid(taken_at) {
        taken_at
    } else {
        0
    }
}

/// The reel that a complete media item describes, its date seen at UTC
/// offset `offset`.
pub open spec fn media_reel(f: MediaFieldsView, offset: i32) -> ReelView {
    ReelView {
        url: reel_url(f.code->0),
        ratio: None,
        account: f.username->0,
        like: f.like_count->0 as usize,
        comments: f.comment_count->0 as usize,
        views: match f.play_count {
            Some(v) => Some(v as usize),
            None => None,
        },
        duration: f.video_duration->0,
        date: LocalTime { timestamp: media_timestamp(f.taken_at->0), offset: offset },
        paid_partnership: f.is_paid_partnership->0,
        caption: match f.caption_text {
            Some(t) => t,
            None => Seq::empty(),
        },
    }
}

/// A reel built from a complete media item carries that item's texts and
/// counts unchanged: its caption is exactly the item's `caption.text`,
/// whatever its length (empty where there is none), its account the
/// item's user name, its address the reel page of the item's code, its
/// likes, comments and views the item's counts, and its duration and
/// paid-partnership flag the item's; its date is the item's `taken_at`
/// (the Unix epoch where chrono has no date for it); no ratio is set yet.
pub proof fn law_reel_keeps_the_media_item(f: MediaFieldsView, offset: i32)
    requires
        f.complete(),
    ensures
        ({
            let r = media_reel(f, offset);
            &&& f.caption_text matches Some(t) ==> r.caption == t
            &&& f.caption_text is None ==> r.caption.len() == 0
            &&& r.account == f.username->0
            &&& r.url == "https://www.instagram.com/reel/"@ + f.code->0 + "/"@
            &&& f.like_count->0 <= usize::MAX ==> r.like == f.like_count->0
            &&& f.comment_count->0 <= usize::MAX ==> r.comments == f.comment_count->0
            &&& (f.play_count is None <==> r.views is None)
            &&& f.play_count matches Some(p) ==> (p <= usize::MAX ==> r.views == Some(p as usize))
            &&& r.duration == f.video_duration->0
            &&& r.paid_partnership == f.is_paid_partnership->0
            &&& r.ratio is None
            &&& r.date.offset == offset
            &&& MIN_TIMESTAMP <= f.taken_at->0 <= MAX_TIMESTAMP ==> r.date.timestamp == f.taken_at->0
            &&& !(MIN_TIMESTAMP <= f.taken_at->0 <= MAX_TIMESTAMP) ==> r.date.timestamp == 0
        }),
{
}

fn string_of(s: &String) -> (r: String)
    ensures
        r@ == s@,
{
    s.clone()
}

impl Reel {
    /// The reel that a complete media item describes, its date seen at UTC
    /// offset `offset`.
    pub fn from_media_at(f: &MediaFields, offset: i32) -> (r: Reel)
        requires
            f@.complete(),
            offset_in_range(offset as int),
        ensures
            r@ == media_reel(f@, offset),
            r@.wf(),
    {
        let code: &str = match &f.code {
            Some(c) => c.as_str(),
            None => "",
        };
        let mut url = String::from_str("https://www.instagram.com/reel/");
        url.append(code);
        url.append("/");
        let like = match f.like_count {
            Some(v) => v as usize,
            None => 0,
        };
        let comments = match f.comment_count {
            Some(v) => v as usize,
            None => 0,
        };
        let views = match f.play_count {
            Some(v) => Some(v as usize),
            None => None,
        };
        let duration = match f.video_duration {
            Some(d) => d,
            None => ReelDuration { secs: 0, nanos: 0 },
        };
        let taken_at = match f.taken_at {
            Some(t) => t,
            None => 0,
        };
        let timestamp = if timestamp_is_valid(taken_at) {
            taken_at
        } else {
            0
        };
        let account = match &f.username {
            Some(u) => string_of(u),
            None => String::new(),
        };
        let paid_partnership = match f.is_paid_partnership {
            Some(p) => p,
            None => false,
        };
        let caption = match &f.caption_text {
            Some(t) => string_of(t),
            None => String::new(),
        };
        Reel {
            url,
            ratio: None,
            account,
            like,
            comments,
            views,
            duration,
            date: LocalTime { timestamp, offset },
            paid_partnership,
            caption,
        }
    }

    /// The reel that a complete media item describes, its date seen in the
    /// machine's local time zone.
    pub fn from_media(f: &MediaFields) -> (r: Reel)
        requires
            f@.complete(),
        ensures
            r@ == media_reel(f@, r.date.offset),
            r@.wf(),
    {
        let taken_at = match f.taken_at {
            Some(t) => t,
            None => 0,
        };
        let timestamp = if timestamp_is_valid(taken_at) {
            taken_at
        } else {
            0
        };
        let offset = local_offset_at(timestamp);
        Reel::from_media_at(f, offset)
    }

    /// The reel that a media item describes, or `None` where a field that a
    /// reel cannot do without is missing.
    pub fn try_from_media(f: &MediaFields) -> (r: Option<Reel>)
        ensures
            r is Some <==> f@.complete(),
            r matches Some(reel) ==> reel@ == media_reel(f@, reel.date.offset) && reel@.wf(),
    {
        let complete = f.code.is_some() && f.like_count.is_some() && f.comment_count.is_some()
            && f.taken_at.is_some() && f.username.is_some() && f.is_paid_partnership.is_some();
        if !complete {
            return None;
        }
        match f.video_duration {
            Some(d) => {
                if d.nanos >= 1_000_000_000 {
                    return None;
                }
            },
            None => {
                return None;
            },
        }
        Some(Reel::from_media(f))
    }
}

/// The item that a media response body is about: `items[0]`, as
/// serde_json's indexing reads it (`null` where there is none).
pub open spec fn media_item(doc: Json) -> Json {
    or_null(
        match json_field(doc, "items"@) {
            Some(items) => json_element(items, 0),
            None => None,
        },
    )
}

/// The item is an object that holds each of the keys a reel is read from.
pub open spec fn has_media_keys(item: Json) -> bool {
    &&& json_field(item, "code"@) is Some
    &&& json_field(item, "like_count"@) is Some
    &&& json_field(item, "comment_count"@) is Some
    &&& json_field(item, "play_count"@) is Some
    &&& json_field(item, "caption"@) is Some
    &&& json_field(item, "video_duration"@) is Some
    &&& json_field(item, "taken_at"@) is Some
    &&& json_field(item, "user"@) is Some
    &&& json_field(item, "is_paid_partnership"@) is Some
}

/// What a media item says of a reel, where it holds every key a reel is
/// read from: each field as its value reads, `caption.text` and
/// `user.username` one level down (`None` where the value there is not of
/// the kind the field wants).
pub open spec fn item_fields(item: Json) -> Option<MediaFieldsView> {
    if has_media_keys(item) {
        Some(
            MediaFieldsView {
                code: json_text(json_field(item, "code"@)->0),
                like_count: json_u64(json_field(item, "like_count"@)->0),
                comment_count: json_u64(json_field(item, "comment_count"@)->0),
                play_count: json_u64(json_field(item, "play_count"@)->0),
                caption_text: json_text(
                    or_null(json_field(json_field(item, "caption"@)->0, "text"@)),
                ),
                video_duration: json_seconds(json_field(item, "video_duration"@)->0),
                taken_at: json_i64(json_field(item, "taken_at"@)->0),
                username: json_text(
                    or_null(json_field(json_field(item, "user"@)->0, "username"@)),
                ),
                is_paid_partnership: json_bool(json_field(item, "is_paid_partnership"@)->0),
            },
        )
    } else {
        None
    }
}

/// What a media response body says of a reel: `None` where the body is
/// not JSON, or its item is no object holding every key a reel is read
/// from.
pub open spec fn body_fields(body: Seq<char>) -> Option<MediaFieldsView> {
    match json_document(body) {
        Some(doc) => item_fields(media_item(doc)),
        None => None,
    }
}

fn text_below(v: &Json, key: &str) -> (r: Option<String>)
    ensures
        text_view(r) == json_text(or_null(json_field(*v, key@))),
{
    match field(v, key) {
        Some(t) => text_of(t),
        None => None,
    }
}

/// The fields of a media item (see `item_fields`).
pub fn item_media_fields(item: &Json) -> (r: Option<MediaFields>)
    ensures
        r matches Some(m) ==> item_fields(*item) == Some(m@),
        r is None ==> item_fields(*item) is None,
{
    let code = match field(item, "code") { Some(x) => x, None => { return None; } };
    let like = match field(item, "like_count") { Some(x) => x, None => { return None; } };
    let comments = match field(item, "comment_count") { Some(x) => x, None => { return None; } };
    let play = match field(item, "play_count") { Some(x) => x, None => { return None; } };
    let caption = match field(item, "caption") { Some(x) => x, None => { return None; } };
    let duration = match field(item, "video_duration") { Some(x) => x, None => { return None; } };
    let taken = match field(item, "taken_at") { Some(x) => x, None => { return None; } };
    let user = match field(item, "user") { Some(x) => x, None => { return None; } };
    let paid = match field(item, "is_paid_partnership") { Some(x) => x, None => { return None; } };
    let fields = MediaFields {
        code: text_of(code),
        like_count: u64_of(like),
        comment_count: u64_of(comments),
        play_count: u64_of(play),
        caption_text: text_below(caption, "text"),
        video_duration: seconds_of(duration),
        taken_at: i64_of(taken),
        username: text_below(user, "username"),
        is_paid_partnership: bool_of(paid),
    };
    assert(fields@ == item_fields(*item)->0);
    Some(fields)
}

/// The fields that a media response body gives of its item (see
/// `body_fields`).
pub fn parse_media_body(body: &str) -> (r: Option<MediaFields>)
    ensures
        r matches Some(m) ==> body_fields(body@) == Some(m@),
        r is None ==> body_fields(body@) is None,
{
    let doc = match parse_json(body) {
        Some(d) => d,
        None => {
            return None;
        },
    };
    let item = match field(&doc, "items") {
        Some(items) => element(items, 0),
        None => None,
    };
    match item {
        Some(it) => item_media_fields(it),
        None => {
            assert(item_fields(Json::Null) is None);
            None
        },
    }
}

/// The reel that a media response body describes, its date seen in the
/// machine's local time zone; `None` where the body cannot be read or its
/// item lacks a field that a reel cannot do without.
pub fn reel_from_body(body: &str) -> (r: Option<Reel>)
    ensures
        r is Some <==> (body_fields(body@) matches Some(m) && m.complete()),
        r matches Some(reel) ==> (body_fields(body@) matches Some(m) && reel@ == media_reel(
            m,
            reel.date.offset,
        ) && reel@.wf()),
{
    match parse_media_body(body) {
        Some(fields) => Reel::try_from_media(&fields),
        None => None,
    }
}

} // verus!
