use flatcrawl::crawlers::sueddeutsche::Sueddeutsche;
use flatcrawl::crawlers::wggesucht::WGGesucht;
use flatcrawl::error::Error;
use flatcrawl::numbers::Decimal;
use flatcrawl::text::join_trimmed_lines;
use flatcrawl::text::remove_brackets;
use flatcrawl::text::replace_all;
use flatcrawl::text::split_nth;
use flatcrawl::text::text_after_last;
use flatcrawl::text::trim_text;

#[test]
fn trimming_strips_both_ends() {
    assert_eq!(trim_text("  a flat \t\n"), String::from("a flat"));
    assert_eq!(trim_text(" \t "), String::from(""));
    assert_eq!(trim_text("solid"), String::from("solid"));
}

#[test]
fn replace_all_rewrites_every_occurrence() {
    assert_eq!(
        replace_all("idHitRowList4711", "idHitRowList", ""),
        String::from("4711")
    );
    assert_eq!(
        replace_all("1.100&nbsp;EUR&nbsp;", "&nbsp;", " "),
        String::from("1.100 EUR ")
    );
}

#[test]
fn bracket_segments_vanish_with_their_leading_space() {
    assert_eq!(
        remove_brackets("Schwabing (Nähe U-Bahn), München"),
        String::from("Schwabing, München")
    );
    assert_eq!(remove_brackets("no brackets"), String::from("no brackets"));
    assert_eq!(remove_brackets("open (but never closed"), String::from("open (but never closed"));
}

#[test]
fn lines_join_trimmed_and_nonempty() {
    assert_eq!(
        join_trimmed_lines("  Leopoldstraße 1 \n\n  München \n"),
        String::from("Leopoldstraße 1, München")
    );
}

#[test]
fn split_counts_parts_like_the_standard_split() {
    assert_eq!(split_nth("60 m², 2 Zimmer", ", ", 0), Some(String::from("60 m²")));
    assert_eq!(split_nth("60 m², 2 Zimmer", ", ", 1), Some(String::from("2 Zimmer")));
    assert_eq!(split_nth("60 m², 2 Zimmer", ", ", 2), None);
    assert_eq!(split_nth("a\nb\nc", "\n", 2), Some(String::from("c")));
}

#[test]
fn tail_after_the_last_separator() {
    assert_eq!(
        text_after_last("https://example.test/estates/4711", '/'),
        String::from("4711")
    );
    assert_eq!(text_after_last("no-slash", '/'), String::from("no-slash"));
}

#[test]
fn sueddeutsche_fields_assemble_exactly() {
    let r = Sueddeutsche::from_fields(
        "60 m², 2 Zimmer",
        "\tregion\nline\n  Leopoldstraße 1 (Hinterhof)\n",
        "\tA fine\nflat\t",
        "1.100&nbsp;EUR",
        "idHitRowList4711",
    )
    .unwrap();
    assert_eq!(r.price, Decimal { negative: false, mantissa: 1100, scale: 0 });
    assert_eq!(r.squaremeters, Decimal { negative: false, mantissa: 60, scale: 0 });
    assert_eq!(r.rooms, Decimal { negative: false, mantissa: 2, scale: 0 });
    assert_eq!(r.address, String::from("  Leopoldstraße 1"));
    assert_eq!(r.title, String::from("A fineflat"));
    assert_eq!(r.externalid, String::from("4711"));
}

#[test]
fn sueddeutsche_incomplete_information_is_a_missing_field() {
    let r = Sueddeutsche::from_fields("60 m²", "region", "t", "1.100", "id1");
    assert_eq!(r.unwrap_err(), Error::SelectorNotFound);
}

#[test]
fn wggesucht_fields_assemble_exactly() {
    let r = WGGesucht::from_fields("650", "60", "2", "\n Schwabing \n", String::from("wohnungen.7"))
        .unwrap();
    assert_eq!(r.address, String::from("München, Schwabing"));
    assert_eq!(r.title, String::from("Wohnung auf WG Gesucht"));
    assert_eq!(r.externalid, String::from("wohnungen.7"));
}
