use flatcrawl::city::City;
use flatcrawl::flat::Flat;
use flatcrawl::flat::FlatData;
use flatcrawl::numbers::Decimal;
use flatcrawl::reconcile::filter_new_flats;
use flatcrawl::text::normalized_title;

fn dec(mantissa: u64, scale: u32) -> Decimal {
    Decimal { negative: false, mantissa, scale }
}

#[test]
fn compare_flat_simple() {
    let flat = Flat::new(String::from("some source"), City::Munich);
    let another_flat = Flat::new(String::from("some source"), City::Munich);
    assert_eq!(flat, another_flat);
}

#[test]
fn compare_flat_complex() {
    let flat_a = Flat {
        source: String::from("some source A"),
        city: City::Munich,
        date: 0,
        data: Some(FlatData {
            price: dec(100, 0),
            squaremeters: dec(100, 0),
            address: String::from("Some address"),
            title: String::from("This is some title"),
            externalid: String::from("1a"),
            rooms: dec(3, 0),
        }),
        location: None,
    };

    let flat_b = Flat {
        source: String::from("some source B"),
        city: City::Munich,
        date: 0,
        data: Some(FlatData {
            price: dec(100, 0),
            squaremeters: dec(100, 0),
            address: String::from("Some address"),
            title: String::from("This is some title"),
            externalid: String::from("1b"),
            rooms: dec(3, 0),
        }),
        location: None,
    };

    assert_eq!(flat_a, flat_b);
}

#[test]
fn compare_flat_complex_special_chars() {
    let flat_a = Flat {
        source: String::from("some source A"),
        city: City::Munich,
        date: 0,
        data: Some(FlatData {
            price: dec(100, 0),
            squaremeters: dec(100, 0),
            address: String::from("Some address"),
            title: String::from("This is% some title!"),
            externalid: String::from("1a"),
            rooms: dec(3, 0),
        }),
        location: None,
    };

    let flat_b = Flat {
        source: String::from("some source B"),
        city: City::Munich,
        date: 0,
        data: Some(FlatData {
            price: dec(101, 0),
            squaremeters: dec(101, 0),
            address: String::from("Some other address"),
            title: String::from("This is some title"),
            externalid: String::from("1b"),
            rooms: dec(35, 1),
        }),
        location: None,
    };

    assert_eq!(flat_a, flat_b);
}

#[test]
fn compare_flat_not_equal() {
    let flat_a = Flat {
        source: String::from("some source A"),
        city: City::Munich,
        date: 0,
        data: None,
        location: None,
    };

    let flat_b = Flat {
        source: String::from("some source B"),
        city: City::Munich,
        date: 0,
        data: None,
        location: None,
    };

    assert_ne!(flat_a, flat_b);
}

#[test]
fn compare_flat_complex_not_equal() {
    let flat_a = Flat {
        source: String::from("some source A"),
        city: City::Munich,
        date: 0,
        data: Some(FlatData {
            price: dec(100, 0),
            squaremeters: dec(100, 0),
            address: String::from("Some address"),
            title: String::from("This is% some title!"),
            externalid: String::from("1a"),
            rooms: dec(3, 0),
        }),
        location: None,
    };

    let flat_b = Flat {
        source: String::from("some source B"),
        city: City::Munich,
        date: 0,
        data: Some(FlatData {
            price: dec(101, 0),
            squaremeters: dec(101, 0),
            address: String::from("Some other address"),
            title: String::from("This is some other title"),
            externalid: String::from("1b"),
            rooms: dec(35, 1),
        }),
        location: None,
    };

    assert_ne!(flat_a, flat_b);
}

fn complete_flat(source: &str, city: City, title: &str, externalid: &str) -> Flat {
    Flat {
        source: String::from(source),
        city,
        date: 0,
        data: Some(FlatData {
            price: dec(700, 0),
            squaremeters: dec(60, 0),
            address: String::from("Some address"),
            title: String::from(title),
            externalid: String::from(externalid),
            rooms: dec(2, 0),
        }),
        location: None,
    }
}

#[test]
fn equivalence_never_crosses_cities() {
    let a = complete_flat("same source", City::Munich, "Same title", "id-1");
    let b = complete_flat("same source", City::Augsburg, "Same title", "id-1");
    assert_ne!(a, b);
}

#[test]
fn equivalence_is_reflexive() {
    let a = complete_flat("a source", City::Munich, "A title", "id-1");
    assert_eq!(a, a.clone());
}

#[test]
fn normalization_is_idempotent_on_a_sample() {
    let once = normalized_title("This is% some Title!");
    let again_input: String = once.iter().collect();
    let twice = normalized_title(&again_input);
    assert_eq!(once, twice);
    let expected: Vec<char> = "thisissometitle".chars().collect();
    assert_eq!(once, expected);
}

#[test]
fn reconciliation_round_trip() {
    let p1_previous = complete_flat("site-a", City::Munich, "A fine flat", "id-1");
    let p1_current = complete_flat("site-a", City::Munich, "A fine flat", "id-1");
    let p2 = complete_flat("site-b", City::Munich, "Another flat", "id-2");
    let previous = vec![p1_previous];
    let current = vec![p1_current, p2.clone()];
    let fresh = filter_new_flats(&current, &previous);
    assert_eq!(fresh.len(), 1);
    assert_eq!(fresh[0], p2);
    assert_eq!(
        fresh[0].data.as_ref().unwrap().externalid,
        String::from("id-2")
    );
}

#[test]
fn reconciliation_discards_records_without_data() {
    let empty = Flat::new(String::from("site-a"), City::Munich);
    let fresh = filter_new_flats(&vec![empty], &vec![]);
    assert_eq!(fresh.len(), 0);
}

#[test]
fn normalization_drops_everything_but_ascii_letters_and_digits() {
    let normalized = normalized_title("Müller-Str. 7, 2. OG");
    let expected: Vec<char> = "mllerstr72og".chars().collect();
    assert_eq!(normalized, expected);
}
