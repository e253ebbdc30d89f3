//! The extraction layer: which sites are crawled, with which selector and
//! encoding, and how one fetched page body becomes listing records.
//!
//! The network fetch itself happens outside the library; `execute` takes the
//! fetched body bytes and runs decode, parse, entry selection and per-node
//! extraction.

pub mod immoscout;
pub mod immowelt;
pub mod sueddeutsche;
pub mod wggesucht;
pub mod wohnungsboerse;

use vstd::prelude::*;

use crate::city::City;
use crate::dom::Encoding;
use crate::dom::ElementRef;
use crate::dom::decode_bytes;
use crate::dom::parse_document;
use crate::dom::select_nodes;
use crate::error::Error;
use crate::error::field_error;
use crate::flat::Flat;
use crate::flat::FlatData;
use crate::crawlers::immoscout::ImmoScout;
use crate::crawlers::immowelt::ImmoWelt;
use crate::crawlers::sueddeutsche::Sueddeutsche;
use crate::crawlers::wggesucht::WGGesucht;
use crate::crawlers::wohnungsboerse::Wohnungsboerse;

verus! {

/// The site-specific extraction implementations the crawler knows.
#[derive(Clone, Copy, Debug, PartialEq, Eq, Structural)]
pub enum CrawlerImpl {
    ImmoScout,
    ImmoWelt,
    Sueddeutsche,
    WGGesucht,
    Wohnungsboerse,
}

/// One unit of work: a listing page on one site for one city, with the
/// declared character encoding and the extraction implementation to apply.
pub struct Config {
    pub host: String,
    pub path: String,
    pub city: City,
    pub encoding: Encoding,
    pub crawler: CrawlerImpl,
}

/// The mathematical value of a `Config`.
pub struct ConfigView {
    pub host: Seq<char>,
    pub path: Seq<char>,
    pub city: City,
    pub encoding: Encoding,
    pub crawler: CrawlerImpl,
}

impl View for Config {
    type V = ConfigView;

    open spec fn view(&self) -> ConfigView {
        ConfigView {
            host: self.host@,
            path: self.path@,
            city: self.city,
            encoding: self.encoding,
            crawler: self.crawler,
        }
    }
}

/// The stable name each extraction implementation logs and records under.
pub open spec fn crawler_name_spec(c: CrawlerImpl) -> Seq<char> {
    match c {
        CrawlerImpl::ImmoScout => "immoscout"@,
        CrawlerImpl::ImmoWelt => "immowelt"@,
        CrawlerImpl::Sueddeutsche => "sueddeutsche"@,
        CrawlerImpl::WGGesucht => "wggesucht"@,
        CrawlerImpl::Wohnungsboerse => "wohnungsboerse"@,
    }
}

/// The name of an extraction implementation.
pub fn crawler_name(c: &CrawlerImpl) -> (r: &'static str)
    ensures
        r@ == crawler_name_spec(*c),
{
    match c {
        CrawlerImpl::ImmoScout => (ImmoScout {}).name(),
        CrawlerImpl::ImmoWelt => (ImmoWelt::new()).name(),
        CrawlerImpl::Sueddeutsche => (Sueddeutsche::new()).name(),
        CrawlerImpl::WGGesucht => (WGGesucht {}).name(),
        CrawlerImpl::Wohnungsboerse => (Wohnungsboerse {}).name(),
    }
}

/// The entry-point selector each extraction implementation applies to the
/// parsed document.
pub open spec fn crawler_selector_spec(c: CrawlerImpl) -> Seq<char> {
    match c {
        CrawlerImpl::ImmoScout => "article[data-item=result]"@,
        CrawlerImpl::ImmoWelt => ".js-object[data-estateid]"@,
        CrawlerImpl::Sueddeutsche => "#idHitContent .hitRow"@,
        CrawlerImpl::WGGesucht => "tr[adid^=wohnungen]"@,
        CrawlerImpl::Wohnungsboerse => ".search_result_entry[class*='estate_']"@,
    }
}

/// The entry-point selector of an extraction implementation.
pub fn crawler_selector(c: &CrawlerImpl) -> (r: &'static str)
    ensures
        r@ == crawler_selector_spec(*c),
{
    match c {
        CrawlerImpl::ImmoScout => (ImmoScout {}).selector(),
        CrawlerImpl::ImmoWelt => (ImmoWelt::new()).selector(),
        CrawlerImpl::Sueddeutsche => (Sueddeutsche::new()).selector(),
        CrawlerImpl::WGGesucht => (WGGesucht {}).selector(),
        CrawlerImpl::Wohnungsboerse => (Wohnungsboerse {}).selector(),
    }
}

/// Runs one extraction implementation on one candidate node. A failure is a
/// field-level one: it aborts only this node.
fn transform_node(c: &CrawlerImpl, node: &ElementRef) -> (r: Result<FlatData, Error>)
    ensures
        match r {
            Ok(_) => true,
            Err(e) => field_error(e),
        },
{
    match c {
        CrawlerImpl::ImmoScout => (ImmoScout {}).transform_result(node),
        CrawlerImpl::ImmoWelt => (ImmoWelt::new()).transform_result(node),
        CrawlerImpl::Sueddeutsche => (Sueddeutsche::new()).transform_result(node),
        CrawlerImpl::WGGesucht => (WGGesucht {}).transform_result(node),
        CrawlerImpl::Wohnungsboerse => (Wohnungsboerse {}).transform_result(node),
    }
}

/// Runs the fetch-decode-parse-extract pipeline on one fetched page body:
/// decodes it under the target's declared encoding, parses the document,
/// applies the entry-point selector, and extracts one record per candidate
/// node, skipping nodes whose extraction fails and collecting their errors
/// for the log sink.
///
/// Every returned record carries the target's city, the implementation's
/// name as its source, extracted data, and no location yet. Fails with
/// `SelectorNotFound` — a target-level failure — exactly when the entry
/// selector matches nothing.
pub fn execute(config: &Config, body: &Vec<u8>) -> (r: Result<(Vec<Flat>, Vec<Error>), Error>)
    ensures
        match r {
            Ok(p) => {
                &&& forall|i: int|
                    0 <= i < p.0@.len() ==> {
                        &&& (#[trigger] p.0@[i])@.city == config.city
                        &&& p.0@[i]@.source == crawler_name_spec(config.crawler)
                        &&& p.0@[i]@.data is Some
                        &&& p.0@[i]@.location is None
                    }
                &&& forall|i: int| 0 <= i < p.1@.len() ==> field_error(#[trigger] p.1@[i])
            },
            Err(e) => e == Error::SelectorNotFound,
        },
{
    let text = decode_bytes(body, &config.encoding);
    let document = parse_document(text.as_str());
    let nodes = match select_nodes(&document, crawler_selector(&config.crawler)) {
        Ok(nodes) => nodes,
        Err(e) => {
            return Err(e);
        },
    };
    if nodes.len() == 0 {
        return Err(Error::SelectorNotFound);
    }
    let mut flats: Vec<Flat> = Vec::new();
    let mut skipped: Vec<Error> = Vec::new();
    let mut i: usize = 0;
    while i < nodes.len()
        invariant
            forall|t: int|
                0 <= t < flats@.len() ==> {
                    &&& (#[trigger] flats@[t])@.city == config.city
                    &&& flats@[t]@.source == crawler_name_spec(config.crawler)
                    &&& flats@[t]@.data is Some
                    &&& flats@[t]@.location is None
                },
            forall|t: int| 0 <= t < skipped@.len() ==> field_error(#[trigger] skipped@[t]),
        decreases nodes@.len() - i,
    {
        let name = crawler_name(&config.crawler);
        let flat = Flat::new(name.to_owned(), config.city);
        match transform_node(&config.crawler, &nodes[i]) {
            Ok(data) => {
                flats.push(flat.fill(&data));
            },
            Err(e) => {
                skipped.push(e);
            },
        }
        i = i + 1;
    }
    Ok((flats, skipped))
}

/// Whether a configuration slot holds what the static crawl plan assigns it.
pub open spec fn config_slot(i: int, c: ConfigView) -> bool {
    if 0 <= i < 4 {
        c.host == "www.immobilienscout24.de"@ && c.encoding == Encoding::Utf8 && c.crawler
            == CrawlerImpl::ImmoScout && (if i == 0 {
            c.city == City::Munich && c.path
                == "/Suche/S-2/P-1/Wohnung-Miete/Bayern/Muenchen?pagerReporting=true"@
        } else if i == 1 {
            c.city == City::Wuerzburg && c.path
                == "/Suche/S-2/P-1/Wohnung-Miete/Bayern/Wuerzburg?pagerReporting=true"@
        } else if i == 2 {
            c.city == City::Augsburg && c.path
                == "/Suche/S-2/P-1/Wohnung-Miete/Bayern/Augsburg?pagerReporting=true"@
        } else {
            c.city == City::Kempten && c.path
                == "/Suche/S-2/P-1/Wohnung-Miete/Bayern/Kempten-Allgaeu?pagerReporting=true"@
        })
    } else if 4 <= i < 8 {
        c.host == "www.immowelt.de"@ && c.encoding == Encoding::Utf8 && c.crawler
            == CrawlerImpl::ImmoWelt && (if i == 4 {
            c.city == City::Munich && c.path == "/liste/muenchen/wohnungen/mieten?sort=relevanz"@
        } else if i == 5 {
            c.city == City::Wuerzburg && c.path == "/liste/wuerzburg/wohnungen/mieten?sort=relevanz"@
        } else if i == 6 {
            c.city == City::Augsburg && c.path == "/liste/augsburg/wohnungen/mieten?sort=relevanz"@
        } else {
            c.city == City::Kempten && c.path
                == "/liste/kempten-allgaeu/wohnungen/mieten?sort=relevanz"@
        })
    } else if 8 <= i < 10 {
        c.host == "immobilienmarkt.sueddeutsche.de"@ && c.encoding == Encoding::Latin1 && c.crawler
            == CrawlerImpl::Sueddeutsche && (if i == 8 {
            c.city == City::Munich && c.path == "/Angebote/mieten/Wohnung-Stadt_Muenchen"@
        } else {
            c.city == City::Wuerzburg && c.path == "/Angebote/mieten/Wohnung-Stadt_Wuerzburg"@
        })
    } else if 10 <= i < 14 {
        c.host == "www.wg-gesucht.de"@ && c.encoding == Encoding::Utf8 && c.crawler
            == CrawlerImpl::WGGesucht && (if i == 10 {
            c.city == City::Munich && c.path == "/wohnungen-in-Muenchen.90.2.0.0.html"@
        } else if i == 11 {
            c.city == City::Wuerzburg && c.path == "/wohnungen-in-Wuerzburg.141.2.0.0.html"@
        } else if i == 12 {
            c.city == City::Augsburg && c.path == "/wohnungen-in-Augsburg.2.2.0.0.html"@
        } else {
            c.city == City::Kempten && c.path == "/wohnungen-in-Kempten-Allgaeu.70.2.0.0.html"@
        })
    } else {
        c.host == "www.wohnungsboerse.net"@ && c.encoding == Encoding::Utf8 && c.crawler
            == CrawlerImpl::Wohnungsboerse && (if i == 14 {
            c.city == City::Munich && c.path
                == "/searches/index/marketing_type:miete/object_type:1/country:de/minrooms:1/state:2/cities:2091"@
        } else if i == 15 {
            c.city == City::Wuerzburg && c.path
                == "/searches/index/marketing_type:miete/object_type:1/country:de/minrooms:1/state:2/cities:2772"@
        } else if i == 16 {
            c.city == City::Augsburg && c.path
                == "/searches/index/marketing_type:miete/object_type:1/country:de/minrooms:1/state:2/cities:1231"@
        } else {
            c.city == City::Kempten && c.path
                == "/searches/index/marketing_type:miete/object_type:1/country:de/minrooms:1/state:2/cities:1879"@
        })
    }
}

/// One configuration entry.
fn cfg(host: &str, path: &str, city: City, encoding: Encoding, crawler: CrawlerImpl) -> (c: Config)
    ensures
        c@.host == host@,
        c@.path == path@,
        c@.city == city,
        c@.encoding == encoding,
        c@.crawler == crawler,
{
    Config { host: host.to_owned(), path: path.to_owned(), city, encoding, crawler }
}

/// The static crawl plan: every listing page the crawler polls each round,
/// in a fixed order — four ImmoScout pages, four ImmoWelt pages, two
/// Süddeutsche pages, four WG-Gesucht pages and four Wohnungsbörse pages.
pub fn get_crawler_configs() -> (r: Vec<Config>)
    ensures
        r@.len() == 18,
        forall|i: int| 0 <= i < 18 ==> config_slot(i, (#[trigger] r@[i])@),
{
    let mut configs: Vec<Config> = Vec::new();
    configs.push(
        cfg(
            "www.immobilienscout24.de",
            "/Suche/S-2/P-1/Wohnung-Miete/Bayern/Muenchen?pagerReporting=true",
            City::Munich,
            Encoding::Utf8,
            CrawlerImpl::ImmoScout,
        ),
    );
    configs.push(
        cfg(
            "www.immobilienscout24.de",
            "/Suche/S-2/P-1/Wohnung-Miete/Bayern/Wuerzburg?pagerReporting=true",
            City::Wuerzburg,
            Encoding::Utf8,
            CrawlerImpl::ImmoScout,
        ),
    );
    configs.push(
        cfg(
            "www.immobilienscout24.de",
            "/Suche/S-2/P-1/Wohnung-Miete/Bayern/Augsburg?pagerReporting=true",
            City::Augsburg,
            Encoding::Utf8,
            CrawlerImpl::ImmoScout,
        ),
    );
    configs.push(
        cfg(
            "www.immobilienscout24.de",
            "/Suche/S-2/P-1/Wohnung-Miete/Bayern/Kempten-Allgaeu?pagerReporting=true",
            City::Kempten,
            Encoding::Utf8,
            CrawlerImpl::ImmoScout,
        ),
    );
    configs.push(
        cfg(
            "www.immowelt.de",
            "/liste/muenchen/wohnungen/mieten?sort=relevanz",
            City::Munich,
            Encoding::Utf8,
            CrawlerImpl::ImmoWelt,
        ),
    );
    configs.push(
        cfg(
            "www.immowelt.de",
            "/liste/wuerzburg/wohnungen/mieten?sort=relevanz",
            City::Wuerzburg,
            Encoding::Utf8,
            CrawlerImpl::ImmoWelt,
        ),
    );
    configs.push(
        cfg(
            "www.immowelt.de",
            "/liste/augsburg/wohnungen/mieten?sort=relevanz",
            City::Augsburg,
            Encoding::Utf8,
            CrawlerImpl::ImmoWelt,
        ),
    );
    configs.push(
        cfg(
            "www.immowelt.de",
            "/liste/kempten-allgaeu/wohnungen/mieten?sort=relevanz",
            City::Kempten,
            Encoding::Utf8,
            CrawlerImpl::ImmoWelt,
        ),
    );
    configs.push(
        cfg(
            "immobilienmarkt.sueddeutsche.de",
            "/Angebote/mieten/Wohnung-Stadt_Muenchen",
            City::Munich,
            Encoding::Latin1,
            CrawlerImpl::Sueddeutsche,
        ),
    );
    configs.push(
        cfg(
            "immobilienmarkt.sueddeutsche.de",
            "/Angebote/mieten/Wohnung-Stadt_Wuerzburg",
            City::Wuerzburg,
            Encoding::Latin1,
            CrawlerImpl::Sueddeutsche,
        ),
    );
    configs.push(
        cfg(
            "www.wg-gesucht.de",
            "/wohnungen-in-Muenchen.90.2.0.0.html",
            City::Munich,
            Encoding::Utf8,
            CrawlerImpl::WGGesucht,
        ),
    );
    configs.push(
        cfg(
            "www.wg-gesucht.de",
            "/wohnungen-in-Wuerzburg.141.2.0.0.html",
            City::Wuerzburg,
            Encoding::Utf8,
            CrawlerImpl::WGGesucht,
        ),
    );
    configs.push(
        cfg(
            "www.wg-gesucht.de",
            "/wohnungen-in-Augsburg.2.2.0.0.html",
            City::Augsburg,
            Encoding::Utf8,
            CrawlerImpl::WGGesucht,
        ),
    );
    configs.push(
        cfg(
            "www.wg-gesucht.de",
            "/wohnungen-in-Kempten-Allgaeu.70.2.0.0.html",
            City::Kempten,
            Encoding::Utf8,
            CrawlerImpl::WGGesucht,
        ),
    );
    configs.push(
        cfg(
            "www.wohnungsboerse.net",
            "/searches/index/marketing_type:miete/object_type:1/country:de/minrooms:1/state:2/cities:2091",
            City::Munich,
            Encoding::Utf8,
            CrawlerImpl::Wohnungsboerse,
        ),
    );
    configs.push(
        cfg(
            "www.wohnungsboerse.net",
            "/searches/index/marketing_type:miete/object_type:1/country:de/minrooms:1/state:2/cities:2772",
            City::Wuerzburg,
            Encoding::Utf8,
            CrawlerImpl::Wohnungsboerse,
        ),
    );
    configs.push(
        cfg(
            "www.wohnungsboerse.net",
            "/searches/index/marketing_type:miete/object_type:1/country:de/minrooms:1/state:2/cities:1231",
            City::Augsburg,
            Encoding::Utf8,
            CrawlerImpl::Wohnungsboerse,
        ),
    );
    configs.push(
        cfg(
            "www.wohnungsboerse.net",
            "/searches/index/marketing_type:miete/object_type:1/country:de/minrooms:1/state:2/cities:1879",
            City::Kempten,
            Encoding::Utf8,
            CrawlerImpl::Wohnungsboerse,
        ),
    );
    configs
}

} // verus!
