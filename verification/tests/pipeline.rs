use flatcrawl::city::City;
use flatcrawl::crawlers::Config;
use flatcrawl::crawlers::CrawlerImpl;
use flatcrawl::crawlers::execute;
use flatcrawl::crawlers::get_crawler_configs;
use flatcrawl::dom::Encoding;
use flatcrawl::dom::decode_bytes;
use flatcrawl::error::Error;
use flatcrawl::numbers::Decimal;
use flatcrawl::reconcile::filter_new_flats;

fn wg_config() -> Config {
    Config {
        host: String::from("example.test"),
        path: String::from("/list"),
        city: City::Munich,
        encoding: Encoding::Utf8,
        crawler: CrawlerImpl::WGGesucht,
    }
}

fn wg_row(adid: &str, with_size: bool, free_until: &str) -> String {
    let size = if with_size {
        "<td class=\"ang_spalte_groesse\">60</td>"
    } else {
        ""
    };
    format!(
        "<tr adid=\"{}\"><td class=\"ang_spalte_freibis\">{}</td>\
         <td class=\"ang_spalte_miete\">650</td>{}\
         <td class=\"ang_spalte_zimmer\">2</td>\
         <td class=\"ang_spalte_stadt\">Schwabing</td></tr>",
        adid, free_until, size
    )
}

fn wg_page(rows: &[String]) -> Vec<u8> {
    let mut body = String::from("<html><body><table>");
    for row in rows {
        body.push_str(row);
    }
    body.push_str("</table></body></html>");
    body.into_bytes()
}

#[test]
fn round_extracts_good_nodes_and_drops_bad_ones() {
    let config = wg_config();
    let page = wg_page(&[wg_row("wohnungen.1", true, ""), wg_row("wohnungen.2", false, "")]);
    let (flats, skipped) = execute(&config, &page).unwrap();
    assert_eq!(flats.len(), 1);
    assert_eq!(skipped.len(), 1);
    assert_eq!(skipped[0], Error::SelectorNotFound);
    let flat = &flats[0];
    assert_eq!(flat.city, City::Munich);
    assert_eq!(flat.source, String::from("wggesucht"));
    assert!(flat.location.is_none());
    let data = flat.data.as_ref().unwrap();
    assert_eq!(data.price, Decimal { negative: false, mantissa: 650, scale: 0 });
    assert_eq!(data.squaremeters, Decimal { negative: false, mantissa: 60, scale: 0 });
    assert_eq!(data.rooms, Decimal { negative: false, mantissa: 2, scale: 0 });
    assert_eq!(data.title, String::from("Wohnung auf WG Gesucht"));
    assert_eq!(data.address, String::from("München, Schwabing"));
    assert_eq!(data.externalid, String::from("wohnungen.1"));
}

#[test]
fn two_identical_rounds_suppress_every_duplicate() {
    let config = wg_config();
    let page = wg_page(&[wg_row("wohnungen.1", true, ""), wg_row("wohnungen.3", true, "")]);
    let (first_round, _) = execute(&config, &page).unwrap();
    let (second_round, _) = execute(&config, &page).unwrap();
    assert_eq!(first_round.len(), 2);
    assert_eq!(second_round.len(), 2);
    let fresh = filter_new_flats(&second_round, &first_round);
    assert_eq!(fresh.len(), 0);
}

#[test]
fn entry_selector_miss_abandons_the_target() {
    let config = wg_config();
    let page = String::from("<html><body><p>nothing here</p></body></html>").into_bytes();
    assert_eq!(execute(&config, &page), Err(Error::SelectorNotFound));
}

#[test]
fn limited_availability_rows_are_skipped() {
    let config = wg_config();
    let page = wg_page(&[wg_row("wohnungen.9", true, "01.05.2019")]);
    let (flats, skipped) = execute(&config, &page).unwrap();
    assert_eq!(flats.len(), 0);
    assert_eq!(skipped, vec![Error::LimitedAvailability]);
}

#[test]
fn missing_attribute_is_a_field_failure() {
    let config = Config {
        host: String::from("example.test"),
        path: String::from("/list"),
        city: City::Munich,
        encoding: Encoding::Utf8,
        crawler: CrawlerImpl::ImmoScout,
    };
    // one result article without the data-obid attribute
    let page = String::from(
        "<html><body><article data-item=\"result\">\
         <div class=\"result-list-entry__criteria\"><dl><dd>650</dd></dl>\
         <dl><dd>60 m</dd></dl><dl><dd><span class=\"onlyLarge\">2</span></dd></dl></div>\
         <div class=\"result-list-entry__brand-title\">T</div>\
         <div class=\"result-list-entry__map-link\">A</div>\
         </article></body></html>",
    )
    .into_bytes();
    let (flats, skipped) = execute(&config, &page).unwrap();
    assert_eq!(flats.len(), 0);
    assert_eq!(skipped, vec![Error::AttributeMissing]);
}

#[test]
fn latin1_bytes_decode_to_western_european_text() {
    // 0xE4 is a-umlaut in the single-byte Western European codec
    let decoded = decode_bytes(&vec![0x41, 0xE4], &Encoding::Latin1);
    assert_eq!(decoded, String::from("Aä"));
}

#[test]
fn utf8_bytes_decode_multibyte_sequences() {
    let decoded = decode_bytes(&vec![0x41, 0xC3, 0xA4], &Encoding::Utf8);
    assert_eq!(decoded, String::from("Aä"));
}

#[test]
fn crawl_plan_lists_every_target() {
    let configs = get_crawler_configs();
    assert_eq!(configs.len(), 18);
    assert_eq!(configs[0].host, String::from("www.immobilienscout24.de"));
    assert_eq!(configs[0].city, City::Munich);
    assert_eq!(configs[8].host, String::from("immobilienmarkt.sueddeutsche.de"));
    assert!(matches!(configs[8].encoding, Encoding::Latin1));
    assert!(matches!(configs[17].crawler, CrawlerImpl::Wohnungsboerse));
    assert_eq!(configs[17].city, City::Kempten);
}
