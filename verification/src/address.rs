//! The address that the widget window loads.

use vstd::prelude::*;

verus! {

#[verifier::external_type_specification]
#[verifier::external_body]
pub struct ExUrl(url::Url);

/// The length of the address as text, in bytes.
pub uninterp spec fn url_len(address: url::Url) -> nat;

/// The scheme of an address, in lower case and without the colon.
pub uninterp spec fn url_scheme(address: url::Url) -> Seq<char>;

/// The address with its query replaced by the given one.
pub uninterp spec fn url_with_query(address: url::Url, query: Seq<char>) -> url::Url;

/// The length of `Url::as_str`: the length of the address as text.
#[verifier::external_body]
fn address_len(address: &url::Url) -> (length: usize)
    ensures
        length as nat == url_len(*address),
{
    address.as_str().len()
}

/// `Url::scheme`: the scheme of the address.
#[verifier::external_body]
fn address_scheme(address: &url::Url) -> (scheme: &str)
    ensures
        scheme@ == url_scheme(*address),
{
    address.scheme()
}

/// `Url::set_query` with a query: the query of the address is replaced.
/// The address keeps its parts as offsets of 32 bits: the call is made only
/// where the text stays within them even if every character of the query
/// takes four bytes and each of them has to be escaped as three.
#[verifier::external_body]
fn address_set_query(address: &mut url::Url, query: &str)
    requires
        query_fits(url_len(*old(address)), query@),
    ensures
        *final(address) == url_with_query(*old(address), query@),
{
    address.set_query(Some(query))
}

/// Whether an address of the given length has room for a query.
pub open spec fn query_fits(address_len: nat, query: Seq<char>) -> bool {
    address_len + 12 * query.len() + 1 <= u32::MAX
}

/// The query that tells the page to show itself as the widget.
pub const WIDGET_MODE_QUERY: &'static str = "mode=widget";

/// The page that the widget window loads when no main window is there to
/// take the address from.
pub const WIDGET_FALLBACK_PAGE: &'static str = "index.html";

/// What the widget window loads.
#[derive(Debug)]
pub enum WidgetUrl {
    /// An address on the network.
    External(url::Url),
    /// An address served by the application itself.
    CustomProtocol(url::Url),
    /// A page of the application, by its path.
    App(&'static str),
}

/// What the widget window loads, given the address of the main window:
/// that address with the widget query, as an address on the network where
/// its scheme is `http` or `https`; the fallback page where there is none.
pub open spec fn widget_url_for(main_url: Option<url::Url>, target: WidgetUrl) -> bool {
    match main_url {
        Some(address) => {
            let widget = url_with_query(address, WIDGET_MODE_QUERY@);
            if url_scheme(widget) == "http"@ || url_scheme(widget) == "https"@ {
                target == WidgetUrl::External(widget)
            } else {
                target == WidgetUrl::CustomProtocol(widget)
            }
        },
        None => target matches WidgetUrl::App(page) && page@ == WIDGET_FALLBACK_PAGE@,
    }
}

/// What the widget window loads, given the address of the main window.
pub fn resolve_widget_url(main_url: Option<url::Url>) -> (target: WidgetUrl)
    requires
        main_url matches Some(address) ==> query_fits(url_len(address), WIDGET_MODE_QUERY@),
    ensures
        widget_url_for(main_url, target),
{
    match main_url {
        Some(address) => {
            let mut widget = address;
            address_set_query(&mut widget, WIDGET_MODE_QUERY);
            let scheme = address_scheme(&widget);
            if scheme.eq("http") || scheme.eq("https") {
                WidgetUrl::External(widget)
            } else {
                WidgetUrl::CustomProtocol(widget)
            }
        },
        None => WidgetUrl::App(WIDGET_FALLBACK_PAGE),
    }
}

/// Whether the address of the main window has room for the widget query.
pub fn widget_query_fits(address: &url::Url) -> (fits: bool)
    ensures
        fits == query_fits(url_len(*address), WIDGET_MODE_QUERY@),
{
    proof {
        reveal_strlit("mode=widget");
    }
    let length: usize = address_len(address);
    length <= 0xffff_ffff - 133
}

/// What the widget window loads, given the address of the main window, or
/// nothing for an address too long to take the widget query.
pub fn try_resolve_widget_url(main_url: Option<url::Url>) -> (target: Option<WidgetUrl>)
    ensures
        match target {
            Some(found) => widget_url_for(main_url, found),
            None => main_url matches Some(address) && !query_fits(
                url_len(address),
                WIDGET_MODE_QUERY@,
            ),
        },
{
    let fits = match &main_url {
        Some(address) => widget_query_fits(address),
        None => true,
    };
    if fits {
        Some(resolve_widget_url(main_url))
    } else {
        None
    }
}

} // verus!
