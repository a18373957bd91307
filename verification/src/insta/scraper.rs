//! The decisions of a scraping worker: which page to open for an account,
//! which network responses carry reels, how many followers the account
//! has, and when to stop scrolling through its reels.
use super::reel::{view_count, Ratio, Reel, ReelView};
use crate::text::{
    contains, ends_with, has_infix, has_suffix, parse_usize, parse_usize_spec, remove_commas,
    without_commas,
};
use crate::time::days_before;
use vstd::prelude::*;

verus! {

/// The element whose title holds the account's follower count.
pub const FOLLOWERS_ELEMENT: &'static str = "a[href$='/followers/'] > span";

/// The first reel of an account's reels page.
pub const FIRST_REEL: &'static str = "a[href^='/reel/']";

/// The script that opens the next reel.
pub const NEXT_REEL_SCRIPT: &'static str = "document.querySelector(\"svg[aria-label='Next']\").parentElement.parentElement.parentElement.click()";

/// The page that lists an account's reels.
pub open spec fn reels_page(account: Seq<char>) -> Seq<char> {
    "https://www.instagram.com/"@ + account + "/reels/"@
}

/// The address of the reels page of `account`.
pub fn reels_page_url(account: &str) -> (url: String)
    ensures
        url@ == reels_page(account@),
{
    let mut url = String::from_str("https://www.instagram.com/");
    url.append(account);
    url.append("/reels/");
    url
}

/// Whether a network response at `url` carries the information of a reel:
/// its address ends in `/info/` and passes through `/api/v1/media/`.
pub fn is_reel_info_url(url: &str) -> (b: bool)
    ensures
        b == (has_suffix(url@, "/info/"@) && has_infix(url@, "/api/v1/media/"@)),
{
    ends_with(url, "/info/") && contains(url, "/api/v1/media/")
}

/// The follower count that an account page shows in a title such as
/// `1,234`: the title without its commas, read as a number.
pub fn parse_followers(title: &str) -> (n: Option<usize>)
    ensures
        n == parse_usize_spec(without_commas(title@)),
{
    let digits = remove_commas(title);
    parse_usize(digits.as_str())
}

/// The oldest instant a reel may be taken at to be kept: thirty days before
/// the local midnight `today` that started the day.
pub fn month_ago(today: i64) -> (t: i64)
    requires
        today >= i64::MIN + 36500 * 86400,
    ensures
        t == today - 30 * 86400,
{
    days_before(today, 30)
}

/// Scrolling through the reels of one account, newest first.
pub struct AccountScrape {
    followers: usize,
    oldest: i64,
    count: usize,
}

/// What to do with the reel just received.
pub enum ScrapeStep {
    /// The reel is older than the window: stop with this account.
    Stop,
    /// Open the next reel, and pass this one on.
    Forward(Reel),
}

impl AccountScrape {
    pub closed spec fn followers(&self) -> usize {
        self.followers
    }

    pub closed spec fn oldest(&self) -> i64 {
        self.oldest
    }

    pub closed spec fn spec_count(&self) -> usize {
        self.count
    }

    /// Starts with an account of `followers` followers, keeping the reels
    /// taken at or after `oldest`.
    pub fn new(followers: usize, oldest: i64) -> (s: AccountScrape)
        ensures
            s.followers() == followers,
            s.oldest() == oldest,
            s.spec_count() == 0,
    {
        AccountScrape { followers, oldest, count: 0 }
    }

    /// The number of reels passed on so far.
    pub fn count(&self) -> (n: usize)
        ensures
            n == self.spec_count(),
    {
        self.count
    }

    /// Decides on the reel just received: a reel taken before the window
    /// stops the account; any other gets the account's views per follower
    /// and is passed on.
    pub fn on_reel(&mut self, reel: Reel) -> (step: ScrapeStep)
        requires
            old(self).spec_count() < usize::MAX,
        ensures
            final(self).followers() == old(self).followers(),
            final(self).oldest() == old(self).oldest(),
            reel.date.timestamp < old(self).oldest() ==> step is Stop && final(self).spec_count()
                == old(self).spec_count(),
            reel.date.timestamp >= old(self).oldest() ==> final(self).spec_count() == old(
                self,
            ).spec_count() + 1,
            reel.date.timestamp >= old(self).oldest() ==> (step matches ScrapeStep::Forward(r) && r@
                == (ReelView {
                ratio: Some(Ratio { views: view_count(reel@.views), followers: old(self).followers() }),
                ..reel@
            })),
    {
        if reel.date.timestamp < self.oldest {
            return ScrapeStep::Stop;
        }
        let mut reel = reel;
        reel.set_ratio(self.followers);
        self.count = self.count + 1;
        ScrapeStep::Forward(reel)
    }
}

} // verus!
