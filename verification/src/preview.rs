//! What a preview of a visited page shows.
//!
//! A preview is a card: the icon and the name of the site, the page's title
//! and description, its image, and a line that names the page and the client
//! that visited it. How the card is drawn is the caller's business; what
//! stands on it is decided here.

use crate::og::OGData;
use crate::og::OGDataView;
use crate::text::joined;
use crate::visits::VisitView;
use crate::visits::WebsiteVisit;
use crate::web_url::clone_text;
use vstd::prelude::*;

verus! {

/// The content of a preview card.
#[derive(Debug)]
pub struct PreviewCard {
    /// Where the icon of the site is served.
    pub favicon_src: String,
    /// The name of the site.
    pub heading: String,
    /// The title of the page.
    pub title: Option<String>,
    /// The description of the page.
    pub description: Option<String>,
    /// Where the preview image is served, where the page has one.
    pub image_src: Option<String>,
    /// The address that the card links to: the visited page.
    pub link: String,
    /// The line under the card: the page and the client that visited it.
    pub caption: String,
}

/// The mathematical value of a [`PreviewCard`].
pub struct CardView {
    pub favicon_src: Seq<char>,
    pub heading: Seq<char>,
    pub title: Option<Seq<char>>,
    pub description: Option<Seq<char>>,
    pub image_src: Option<Seq<char>>,
    pub link: Seq<char>,
    pub caption: Seq<char>,
}

impl View for PreviewCard {
    type V = CardView;

    open spec fn view(&self) -> CardView {
        CardView {
            favicon_src: self.favicon_src@,
            heading: self.heading@,
            title: self.title.deep_view(),
            description: self.description.deep_view(),
            image_src: self.image_src.deep_view(),
            link: self.link@,
            caption: self.caption@,
        }
    }
}

/// The name of the site on a card: the site name that the page gave, else
/// the host of its canonical URL, else nothing.
pub open spec fn heading_of(data: OGDataView) -> Seq<char> {
    match data.site_name {
        Some(name) => name,
        None => match data.url.host {
            Some(host) => host,
            None => Seq::empty(),
        },
    }
}

/// The card for a visit. `encoded` is the visited URL in the form in which it
/// stands as one segment of a path.
pub open spec fn card_of(data: OGDataView, visit: VisitView, encoded: Seq<char>) -> CardView {
    CardView {
        favicon_src: "/api/plugin/timeline_plugin_web/image/favicon/"@ + encoded,
        heading: heading_of(data),
        title: data.title,
        description: data.description,
        image_src: match data.image {
            Some(_) => Some("/api/plugin/timeline_plugin_web/image/og_image/"@ + encoded),
            None => None,
        },
        link: visit.website.href,
        caption: data.url.href + " @ "@ + visit.client,
    }
}

/// Decides what stands on the preview card of a visit.
///
/// The image and the icon are served from the cache, under the visited URL:
/// `encoded_website` is that URL, encoded by the caller so that it can stand
/// as one segment of a path.
pub fn preview_card(data: &OGData, visit: &WebsiteVisit, encoded_website: &str) -> (r: PreviewCard)
    ensures
        r@ == card_of(data@, visit@, encoded_website@),
{
    let heading = match &data.site_name {
        Some(name) => name.clone(),
        None => match &data.url.host {
            Some(host) => host.clone(),
            None => String::new(),
        },
    };
    let image_src = match &data.image {
        Some(_) => Some(joined("/api/plugin/timeline_plugin_web/image/og_image/", encoded_website)),
        None => None,
    };
    let mut caption = joined(data.url.href.as_str(), " @ ");
    caption.append(visit.client.as_str());
    PreviewCard {
        favicon_src: joined("/api/plugin/timeline_plugin_web/image/favicon/", encoded_website),
        heading,
        title: clone_text(&data.title),
        description: clone_text(&data.description),
        image_src,
        link: visit.website.href.clone(),
        caption,
    }
}

} // verus!
