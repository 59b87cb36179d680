//! What a scraping loader makes of a page.

use vstd::prelude::*;
use crate::document::{Document, DocumentView};
use crate::json::{json_parsed, Json, JsonView};
use crate::settings::{
    fields, names_view, optional_text, optional_u64, required_text, spec_fields,
    spec_optional_text, spec_optional_u64, spec_required_text, ConfigError, ConfigErrorView,
};
use crate::text::{join, spec_join, string_views};
use scraper::{Html, Selector};

verus! {

/// What the declaration of a scraping loader says.
#[derive(Debug, PartialEq, Eq)]
pub struct Config {
    /// The address of the page.
    pub url: String,
    /// The seconds between two visits; the page is visited once where
    /// there are none.
    pub interval: Option<u64>,
    /// The CSS selector of the elements to keep.
    pub selector: Option<String>,
}

/// The model of a [`Config`].
pub struct ConfigView {
    pub url: Seq<char>,
    pub interval: Option<u64>,
    pub selector: Option<Seq<char>>,
}

impl View for Config {
    type V = ConfigView;

    open spec fn view(&self) -> ConfigView {
        ConfigView {
            url: self.url@,
            interval: self.interval,
            selector: match self.selector {
                Some(s) => Some(s@),
                None => None,
            },
        }
    }
}

/// What a JSON value says of a scraping loader: an object with the address
/// `url`, which has to be there, and with `interval` and `selector`, which
/// may be missing or `null`; and with no other member.
pub open spec fn spec_config(value: JsonView) -> Result<ConfigView, ConfigErrorView> {
    match spec_fields(value, seq!["url"@, "interval"@, "selector"@]) {
        Err(e) => Err(e),
        Ok(members) => match spec_required_text(members, "url"@) {
            Err(e) => Err(e),
            Ok(url) => match spec_optional_u64(members, "interval"@) {
                Err(e) => Err(e),
                Ok(interval) => match spec_optional_text(members, "selector"@) {
                    Err(e) => Err(e),
                    Ok(selector) => Ok(ConfigView { url, interval, selector }),
                },
            },
        },
    }
}

/// The model of a configuration, or of what is wrong with it.
pub open spec fn config_view(r: Result<Config, ConfigError>) -> Result<ConfigView, ConfigErrorView> {
    match r {
        Ok(c) => Ok(c@),
        Err(e) => Err(e@),
    }
}

/// What a JSON value says of a scraping loader.
pub fn config_of(value: &Json) -> (r: Result<Config, ConfigError>)
    ensures
        config_view(r) == spec_config(value@),
{
    let mut known: Vec<&'static str> = Vec::new();
    known.push("url");
    known.push("interval");
    known.push("selector");
    proof {
        assert(names_view(known@) =~= seq!["url"@, "interval"@, "selector"@]);
    }
    let members = match fields(value, &known) {
        Ok(members) => members,
        Err(e) => {
            return Err(e);
        },
    };
    let url = match required_text(members, "url") {
        Ok(v) => v,
        Err(e) => {
            return Err(e);
        },
    };
    let interval = match optional_u64(members, "interval") {
        Ok(v) => v,
        Err(e) => {
            return Err(e);
        },
    };
    let selector = match optional_text(members, "selector") {
        Ok(v) => v,
        Err(e) => {
            return Err(e);
        },
    };
    Ok(Config { url, interval, selector })
}

impl Config {
    /// The configuration that a JSON text stands for: what the value that
    /// the text stands for says of a scraping loader.
    pub fn from_json(text: &str) -> (r: Result<Self, ConfigError>)
        ensures
            config_view(r) == match json_parsed(text@) {
                Err(_) => Err(ConfigErrorView::NotJson),
                Ok(value) => spec_config(value),
            },
    {
        match Json::parse(text) {
            Some(value) => config_of(&value),
            None => Err(ConfigError::NotJson),
        }
    }

    /// Whether the page is visited once only: where no interval is given.
    pub fn run_once(&self) -> (r: bool)
        ensures
            r == (self.interval is None),
    {
        self.interval.is_none()
    }
}

/// The HTML of the elements of a page that a selector selects, in the
/// order of the page; `None` for a text that is no valid selector.
pub uninterp spec fn selected(html: Seq<char>, selector: Seq<char>) -> Option<Seq<Seq<char>>>;

/// The model of what a selector selects.
pub open spec fn selection_view(selection: Option<Vec<String>>) -> Option<Seq<Seq<char>>> {
    match selection {
        Some(parts) => Some(string_views(parts@)),
        None => None,
    }
}

/// The HTML of the elements that a selector selects: the selector is
/// parsed by `Selector::parse`, the page by `Html::parse_document`, and the
/// elements found by `Html::select` are written by `ElementRef::html`.
/// The result depends on the page and the selector alone.
#[verifier::external_body]
fn select_all(html: &str, selector: &str) -> (r: Option<Vec<String>>)
    ensures
        selection_view(r) == selected(html@, selector@),
{
    let selector = Selector::parse(selector).ok()?;
    Some(Html::parse_document(html).select(&selector).map(|element| element.html()).collect())
}

/// What is kept of a page: the selected elements, one per line, where a
/// valid selector is given; else the whole page.
pub open spec fn spec_scraped(html: Seq<char>, selector: Option<Seq<char>>) -> Seq<char> {
    match selector {
        Some(s) => match selected(html, s) {
            Some(parts) => spec_join(parts, "\n"@),
            None => html,
        },
        None => html,
    }
}

/// What is kept of a page.
pub fn scraped_data(html: String, selector: Option<&str>) -> (r: String)
    ensures
        r@ == spec_scraped(
            html@,
            match selector {
                Some(s) => Some(s@),
                None => None,
            },
        ),
{
    match selector {
        Some(s) => match select_all(html.as_str(), s) {
            Some(parts) => join(&parts, "\n"),
            None => html,
        },
        None => html,
    }
}

/// The document of a visit: what was kept of the page, under the page's
/// address and the time of the visit with `-` between them.
pub fn scraped_document(url: &str, stamp: &str, data: String) -> (r: Document)
    ensures
        r@ == (DocumentView { id: url@ + "-"@ + stamp@, data: data@ }),
{
    let mut id = String::from_str(url);
    id.append("-");
    id.append(stamp);
    Document { id, data }
}

} // verus!
