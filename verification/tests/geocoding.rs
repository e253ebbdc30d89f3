use flatcrawl::city::City;
use flatcrawl::error::Error;
use flatcrawl::flat::Flat;
use flatcrawl::flat::FlatData;
use flatcrawl::geocode::ApiResult;
use flatcrawl::geocode::Coordinate;
use flatcrawl::geocode::GeocodeResult;
use flatcrawl::geocode::apply_geocode;
use flatcrawl::geocode::geocode_response;
use flatcrawl::geocode::geocode_url;
use flatcrawl::numbers::Decimal;
use flatcrawl::payload::document_key;
use flatcrawl::payload::payload_json;

fn dec(mantissa: u64, scale: u32) -> Decimal {
    Decimal { negative: false, mantissa, scale }
}

fn sample_flat() -> Flat {
    Flat {
        source: String::from("wggesucht"),
        city: City::Munich,
        date: 1555000000,
        data: Some(FlatData {
            price: dec(650, 0),
            squaremeters: dec(60, 0),
            address: String::from("München, Schwabing"),
            title: String::from("Wohnung auf WG Gesucht"),
            externalid: String::from("wohnungen.1"),
            rooms: dec(2, 0),
        }),
        location: None,
    }
}

#[test]
fn geocode_url_appends_the_query() {
    let url = geocode_url("http://nominatim.example.test/search", "Some address 1").unwrap();
    assert_eq!(
        url,
        String::from("http://nominatim.example.test/search?q=Some+address+1&format=json")
    );
}

#[test]
fn geocode_url_rejects_a_broken_endpoint() {
    assert_eq!(geocode_url("not a url", "Some address"), Err(Error::GeocodeError));
}

#[test]
fn geocode_response_reads_the_first_match() {
    let results = vec![
        ApiResult {
            lat: String::from("48.1351"),
            lon: String::from("11.5820"),
            boundingbox: vec![
                String::from("48.0"),
                String::from("48.2"),
                String::from("11.4"),
                String::from("11.7"),
            ],
        },
        ApiResult {
            lat: String::from("0"),
            lon: String::from("0"),
            boundingbox: vec![],
        },
    ];
    let (coord, bbox) = geocode_response(&results).unwrap();
    assert_eq!(coord.latitude, dec(481351, 4));
    assert_eq!(coord.longitude, dec(115820, 4));
    assert_eq!(bbox.min_lat, dec(480, 1));
    assert_eq!(bbox.max_lat, dec(482, 1));
    assert_eq!(bbox.min_lon, dec(114, 1));
    assert_eq!(bbox.max_lon, dec(117, 1));
}

#[test]
fn geocode_response_without_results_fails() {
    assert_eq!(geocode_response(&vec![]), Err(Error::GeocodeError));
}

#[test]
fn geocode_response_with_malformed_numbers_fails() {
    let results = vec![ApiResult {
        lat: String::from("forty-eight"),
        lon: String::from("11.5820"),
        boundingbox: vec![
            String::from("48.0"),
            String::from("48.2"),
            String::from("11.4"),
            String::from("11.7"),
        ],
    }];
    assert_eq!(geocode_response(&results), Err(Error::GeocodeError));
}

#[test]
fn enrichment_success_attaches_the_location() {
    let flat = sample_flat();
    let outcome = Some(GeocodeResult {
        coord: Coordinate { latitude: dec(481351, 4), longitude: dec(115820, 4) },
        uncertainty: dec(2500, 0),
    });
    let enriched = apply_geocode(&flat, &outcome);
    let location = enriched.location.unwrap();
    assert_eq!(location.latitude, dec(481351, 4));
    assert_eq!(location.longitude, dec(115820, 4));
    assert_eq!(location.uncertainty, dec(2500, 0));
}

#[test]
fn enrichment_failure_keeps_the_record() {
    let flat = sample_flat();
    let kept = apply_geocode(&flat, &None);
    assert!(kept.location.is_none());
    assert!(kept.data.is_some());
    let payload = payload_json(&kept);
    assert!(payload.contains("\"location\":null"));
    assert!(payload.contains("\"externalid\":\"wohnungen.1\""));
}

#[test]
fn payload_spells_out_the_whole_record() {
    let mut flat = sample_flat();
    flat.data.as_mut().unwrap().title = String::from("A \"fine\" flat\n");
    let enriched = apply_geocode(
        &flat,
        &Some(GeocodeResult {
            coord: Coordinate { latitude: dec(481351, 4), longitude: dec(115820, 4) },
            uncertainty: dec(2500, 0),
        }),
    );
    let payload = payload_json(&enriched);
    assert_eq!(
        payload,
        String::from(
            "{\"source\":\"wggesucht\",\"date\":1555000000,\"city\":\"Munich\",\
             \"data\":{\"price\":650,\"squaremeters\":60,\"address\":\"München, Schwabing\",\
             \"title\":\"A \\\"fine\\\" flat\\u000a\",\"externalid\":\"wohnungen.1\",\"rooms\":2},\
             \"location\":{\"latitude\":48.1351,\"longitude\":11.5820,\"uncertainty\":2500}}"
        )
    );
}

#[test]
fn document_key_joins_source_and_external_id() {
    let flat = sample_flat();
    assert_eq!(document_key(&flat), Some(String::from("wggesucht-wohnungen.1")));
    let bare = Flat::new(String::from("wggesucht"), City::Munich);
    assert_eq!(document_key(&bare), None);
}

#[test]
fn payload_of_a_record_without_data_has_null_members() {
    let bare = Flat {
        source: String::from("immoscout"),
        city: City::Wuerzburg,
        date: 7,
        data: None,
        location: None,
    };
    assert_eq!(
        payload_json(&bare),
        String::from(
            "{\"source\":\"immoscout\",\"date\":7,\"city\":\"Wuerzburg\",\
             \"data\":null,\"location\":null}"
        )
    );
}
