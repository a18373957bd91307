//! How a browser is launched: with the configured profile itself, or with
//! a copy of it in a fresh temporary directory, so that several browsers
//! can run side by side.
use crate::config::Config;
use vstd::prelude::*;

verus! {

/// Where the browser keeps its profile.
pub enum DataDir {
    /// In the configured directory itself.
    Configured(String),
    /// In a fresh temporary directory, into which the `Default` profile of
    /// the configured directory is first copied from `source`.
    TemporaryCopyOf { source: String },
}

/// Everything a browser is launched with.
pub struct BrowserPlan {
    pub data_dir: DataDir,
    /// Extra command line arguments.
    pub args: Vec<String>,
    /// Seconds without activity after which the browser is dropped.
    pub idle_timeout_secs: u64,
    pub headless: bool,
    pub window_size: (u32, u32),
    pub sandbox: bool,
}

pub enum DataDirView {
    Configured(Seq<char>),
    TemporaryCopyOf { source: Seq<char> },
}

impl View for DataDir {
    type V = DataDirView;

    open spec fn view(&self) -> DataDirView {
        match self {
            DataDir::Configured(p) => DataDirView::Configured(p@),
            DataDir::TemporaryCopyOf { source } => DataDirView::TemporaryCopyOf { source: source@ },
        }
    }
}

/// The profile that copies are made from.
pub open spec fn default_profile(chromedata: Seq<char>) -> Seq<char> {
    chromedata + "/Default"@
}

impl BrowserPlan {
    /// The launch of a browser for `config`: one that works on a copy of the
    /// profile when `copy` is set, on the profile itself otherwise; without
    /// images, dropped after a minute of idleness, headless as configured, in
    /// a 1920 by 1080 window, outside the sandbox.
    pub fn new(config: &Config, copy: bool) -> (p: BrowserPlan)
        ensures
            copy ==> p.data_dir@ == (DataDirView::TemporaryCopyOf {
                source: default_profile(config.chromedata@),
            }),
            !copy ==> p.data_dir@ == DataDirView::Configured(config.chromedata@),
            p.args@.len() == 1,
            p.args@[0]@ == "--blink-settings=imagesEnabled=false"@,
            p.idle_timeout_secs == 60,
            p.headless == config.headless,
            p.window_size == (1920u32, 1080u32),
            !p.sandbox,
    {
        let data_dir = if copy {
            let mut source = config.chromedata.clone();
            source.append("/Default");
            DataDir::TemporaryCopyOf { source }
        } else {
            DataDir::Configured(config.chromedata.clone())
        };
        let mut args: Vec<String> = Vec::new();
        args.push(String::from_str("--blink-settings=imagesEnabled=false"));
        BrowserPlan {
            data_dir,
            args,
            idle_timeout_secs: 60,
            headless: config.headless,
            window_size: (1920, 1080),
            sandbox: false,
        }
    }
}

} // verus!
