use article_search::article::ArtikelListe;

#[test]
fn minimal_document_parses() {
    let got = ArtikelListe::from_json(r#"{"artikel_liste": []}"#).unwrap();
    assert_eq!(got.artikel_liste.len(), 0);
}

#[test]
fn records_parse_with_defaults_for_missing_fields() {
    let doc = r#"{"artikel_liste": [
        {"satz_id": "A1", "bezeich01": "Red Hammer", "match01": "RH"},
        {"bezeich01": "Nameless"}
    ]}"#;
    let got = ArtikelListe::from_json(doc).unwrap();
    assert_eq!(got.artikel_liste.len(), 2);
    let a = &got.artikel_liste[0];
    assert_eq!(a.satz_id, "A1");
    assert_eq!(a.bezeich01, "Red Hammer");
    assert_eq!(a.match01, "RH");
    assert_eq!(a.match02, "");
    assert_eq!(a.ean_code, "");
    assert!(a.merkmale.is_empty());
    let b = &got.artikel_liste[1];
    assert_eq!(b.satz_id, "");
    assert_eq!(b.bezeich01, "Nameless");
}

#[test]
fn all_scalar_fields_are_read() {
    let doc = r#"{"artikel_liste": [{
        "satz_id": "s", "art_nr01": "n1", "art_nr02": "n2",
        "bezeich01": "b1", "bezeich02": "b2", "bezeich03": "b3", "bezeich04": "b4",
        "match01": "m1", "match02": "m2", "farbcode": "fc", "abmessung": "ab",
        "gewicht": "gw", "sn": "sn", "diniso": "di", "gtyp": "gt",
        "katbest01": "kb", "ean_code": "ean"
    }]}"#;
    let got = ArtikelListe::from_json(doc).unwrap();
    let a = &got.artikel_liste[0];
    assert_eq!(
        (a.satz_id.as_str(), a.art_nr01.as_str(), a.art_nr02.as_str()),
        ("s", "n1", "n2")
    );
    assert_eq!(
        (a.bezeich01.as_str(), a.bezeich02.as_str(), a.bezeich03.as_str(), a.bezeich04.as_str()),
        ("b1", "b2", "b3", "b4")
    );
    assert_eq!((a.match01.as_str(), a.match02.as_str()), ("m1", "m2"));
    assert_eq!((a.farbcode.as_str(), a.abmessung.as_str(), a.gewicht.as_str()), ("fc", "ab", "gw"));
    assert_eq!((a.sn.as_str(), a.diniso.as_str(), a.gtyp.as_str()), ("sn", "di", "gt"));
    assert_eq!((a.katbest01.as_str(), a.ean_code.as_str()), ("kb", "ean"));
}

#[test]
fn merkmale_array_parses() {
    let doc = r#"{"artikel_liste": [{"satz_id": "A1", "merkmale": [
        {"merkmal": "Spannung", "wert": "230", "einheit": "V"},
        {"wert": "12"}
    ]}]}"#;
    let got = ArtikelListe::from_json(doc).unwrap();
    let ms = &got.artikel_liste[0].merkmale;
    assert_eq!(ms.len(), 2);
    assert_eq!(ms[0].merkmal, "Spannung");
    assert_eq!(ms[0].wert, "230");
    assert_eq!(ms[0].einheit, "V");
    assert_eq!(ms[1].merkmal, "");
    assert_eq!(ms[1].wert, "12");
    assert_eq!(ms[1].einheit, "");
}

#[test]
fn unknown_members_are_skipped() {
    let doc = r#"{
        "version": 7,
        "artikel_liste": [{"satz_id": "A1", "price": 9.95, "tags": ["x", {"y": null}], "ok": true}],
        "trailer": "ignored"
    }"#;
    let got = ArtikelListe::from_json(doc).unwrap();
    assert_eq!(got.artikel_liste.len(), 1);
    assert_eq!(got.artikel_liste[0].satz_id, "A1");
}

#[test]
fn string_escapes_decode() {
    let doc = r#"{"artikel_liste": [{"satz_id": "a\"b\\c\/d", "bezeich01": "x\ny\tz\b\f\r", "match01": "A\u00e9\u00C4"}]}"#;
    let got = ArtikelListe::from_json(doc).unwrap();
    let a = &got.artikel_liste[0];
    assert_eq!(a.satz_id, "a\"b\\c/d");
    assert_eq!(a.bezeich01, "x\ny\tz\u{8}\u{c}\r");
    assert_eq!(a.match01, "A\u{e9}\u{c4}");
}

#[test]
fn repeated_member_overwrites() {
    let doc = r#"{"artikel_liste": [{"satz_id": "first", "satz_id": "second"}]}"#;
    let got = ArtikelListe::from_json(doc).unwrap();
    assert_eq!(got.artikel_liste[0].satz_id, "second");
}

#[test]
fn malformed_documents_are_rejected() {
    // no artikel_liste member
    assert!(ArtikelListe::from_json(r#"{}"#).is_err());
    assert!(ArtikelListe::from_json(r#"{"other": 1}"#).is_err());
    // not an object
    assert!(ArtikelListe::from_json(r#"[]"#).is_err());
    assert!(ArtikelListe::from_json("").is_err());
    // artikel_liste of the wrong type
    assert!(ArtikelListe::from_json(r#"{"artikel_liste": 3}"#).is_err());
    assert!(ArtikelListe::from_json(r#"{"artikel_liste": [3]}"#).is_err());
    // a known scalar member of the wrong type
    assert!(ArtikelListe::from_json(r#"{"artikel_liste": [{"satz_id": 3}]}"#).is_err());
    // unclosed structures and trailing garbage
    assert!(ArtikelListe::from_json(r#"{"artikel_liste": ["#).is_err());
    assert!(ArtikelListe::from_json(r#"{"artikel_liste": []} extra"#).is_err());
    // trailing commas
    assert!(ArtikelListe::from_json(r#"{"artikel_liste": [{"satz_id": "x",}]}"#).is_err());
    assert!(ArtikelListe::from_json(r#"{"artikel_liste": [{}],}"#).is_err());
    // a lone surrogate escape
    assert!(ArtikelListe::from_json(r#"{"artikel_liste": [{"satz_id": "\ud800"}]}"#).is_err());
    // an unknown escape
    assert!(ArtikelListe::from_json(r#"{"artikel_liste": [{"satz_id": "\q"}]}"#).is_err());
}

#[test]
fn whitespace_is_tolerated_everywhere() {
    let doc = "  {  \"artikel_liste\"  :  [  {  \"satz_id\"  :  \"A1\"  }  ,  {  }  ]  }  ";
    let got = ArtikelListe::from_json(doc).unwrap();
    assert_eq!(got.artikel_liste.len(), 2);
    assert_eq!(got.artikel_liste[0].satz_id, "A1");
}

#[test]
fn default_catalog_is_empty() {
    let got: ArtikelListe = Default::default();
    assert!(got.artikel_liste.is_empty());
}
