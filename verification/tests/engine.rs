use article_search::article::{ArtOutput, Artikel, ArtikelListe, Merkmal};
use article_search::store::reload_interval_secs;
use article_search::search::{search_article, search_matchcode, search_merkmal};
use article_search::store::CatalogStore;

fn empty_art() -> Artikel {
    Artikel {
        satz_id: String::new(),
        art_nr01: String::new(),
        art_nr02: String::new(),
        bezeich01: String::new(),
        bezeich02: String::new(),
        bezeich03: String::new(),
        bezeich04: String::new(),
        match01: String::new(),
        match02: String::new(),
        farbcode: String::new(),
        abmessung: String::new(),
        gewicht: String::new(),
        sn: String::new(),
        diniso: String::new(),
        gtyp: String::new(),
        katbest01: String::new(),
        ean_code: String::new(),
        merkmale: Vec::new(),
    }
}

fn art(id: &str, bezeich01: &str) -> Artikel {
    let mut a = empty_art();
    a.satz_id = id.to_string();
    a.bezeich01 = bezeich01.to_string();
    a
}

fn ids(rs: &[ArtOutput]) -> Vec<String> {
    rs.iter().map(|r| r.satz_id.clone()).collect()
}

#[test]
fn two_hammers_both_match_and_rank() {
    let list = ArtikelListe {
        artikel_liste: vec![art("A1", "Red Hammer"), art("A2", "Blue Hammer")],
    };
    let rs = search_article(&list, "hammer");
    assert_eq!(rs.len(), 2);
    for w in rs.windows(2) {
        assert!(w[0].score >= w[1].score);
    }
    let mut found = ids(&rs);
    found.sort();
    assert_eq!(found, vec!["A1".to_string(), "A2".to_string()]);
}

#[test]
fn empty_query_matches_everything_with_score_zero() {
    let list = ArtikelListe { artikel_liste: vec![art("A1", "Red Hammer"), art("A2", "Saw")] };
    let rs = search_article(&list, "");
    assert_eq!(rs.len(), 2);
    assert_eq!(rs[0].score, 0);
    assert_eq!(rs[1].score, 0);
    // ties keep catalog order
    assert_eq!(ids(&rs), vec!["A1".to_string(), "A2".to_string()]);
}

#[test]
fn empty_catalog_gives_empty_result() {
    let list = ArtikelListe { artikel_liste: Vec::new() };
    assert!(search_article(&list, "anything").is_empty());
    assert!(search_merkmal(&list, "anything").is_empty());
    assert!(search_matchcode(&list, "anything").is_empty());
    assert!(search_article(&list, "").is_empty());
}

#[test]
fn results_are_cut_to_one_hundred() {
    let mut arts = Vec::new();
    for i in 0..123 {
        arts.push(art(&format!("A{}", i), "widget"));
    }
    let list = ArtikelListe { artikel_liste: arts };
    let rs = search_article(&list, "");
    assert_eq!(rs.len(), 100);
    let rs2 = search_article(&list, "widget");
    assert_eq!(rs2.len(), 100);
}

#[test]
fn exact_match_outranks_scattered_match() {
    // "hammer" stands as one word in the first record and only as scattered
    // characters in the second: the first must come out on top.
    let list = ArtikelListe {
        artikel_liste: vec![
            art("SCAT", "hot amber medical kit"),
            art("EXACT", "hammer"),
        ],
    };
    let rs = search_article(&list, "hammer");
    assert!(!rs.is_empty());
    assert_eq!(rs[0].satz_id, "EXACT");
    for w in rs.windows(2) {
        assert!(w[0].score >= w[1].score);
    }
}

#[test]
fn equal_scores_keep_catalog_order() {
    // identical haystacks score identically, so the catalog order decides
    let list = ArtikelListe {
        artikel_liste: vec![art("N1", "hammer"), art("N2", "hammer"), art("N3", "hammer")],
    };
    let rs = search_article(&list, "hammer");
    assert_eq!(ids(&rs), vec!["N1".to_string(), "N2".to_string(), "N3".to_string()]);
    assert!(rs[0].score == rs[1].score && rs[1].score == rs[2].score);
}

#[test]
fn query_is_lowercased_before_scoring() {
    // lower-cased "hammer" matches inside "Red Hammer" (smart case); the raw
    // upper-case query would not
    let list = ArtikelListe { artikel_liste: vec![art("A1", "Red Hammer")] };
    let rs = search_article(&list, "HAMMER");
    assert_eq!(rs.len(), 1);
    assert_eq!(rs[0].satz_id, "A1");
    assert_eq!(rs[0].bezeich, "Red Hammer");
}

#[test]
fn no_match_drops_the_record() {
    let list = ArtikelListe { artikel_liste: vec![art("A1", "saw"), art("A2", "hammer")] };
    let rs = search_article(&list, "hammer");
    assert_eq!(ids(&rs), vec!["A2".to_string()]);
}

#[test]
fn merkmal_search_reads_only_attributes() {
    let mut a1 = art("A1", "Drill");
    a1.merkmale.push(Merkmal {
        merkmal: "Spannung".to_string(),
        wert: "230".to_string(),
        einheit: "volt".to_string(),
    });
    let a2 = art("A2", "volt meter");
    let list = ArtikelListe { artikel_liste: vec![a1, a2] };
    let rs = search_merkmal(&list, "volt");
    assert_eq!(ids(&rs), vec!["A1".to_string()]);
    assert_eq!(rs[0].bezeich, "Drill");
}

#[test]
fn blank_matchcode_is_skipped() {
    let mut with_code = art("HAS", "Hammer");
    with_code.match01 = "HAM".to_string();
    let mut blank = art("BLANK", "HAM HAM HAM");
    blank.match01 = "  ".to_string();
    blank.match02 = String::new();
    let list = ArtikelListe { artikel_liste: vec![blank, with_code] };
    // even the empty query, which matches every scored record, never sees
    // the blank-matchcode record
    let rs = search_matchcode(&list, "");
    assert_eq!(ids(&rs), vec!["HAS".to_string()]);
    let rs2 = search_matchcode(&list, "ham");
    assert_eq!(ids(&rs2), vec!["HAS".to_string()]);
}

#[test]
fn full_projection_joins_fields_and_attributes() {
    let mut a = empty_art();
    a.bezeich01 = "bez1".to_string();
    a.bezeich02 = "bez2".to_string();
    a.match01 = "m1".to_string();
    a.satz_id = "id9".to_string();
    a.merkmale.push(Merkmal {
        merkmal: "name".to_string(),
        wert: "w1".to_string(),
        einheit: "u1".to_string(),
    });
    assert_eq!(a.get_string(), "bez1 bez2   m1            id9 w1 u1");
    assert_eq!(a.get_string_merkmale(), "w1 u1 ");
    assert_eq!(a.get_string_matchcode(), "m1 ");
}

#[test]
fn art_output_new_keeps_its_fields() {
    let o = ArtOutput::new("id".to_string(), "label".to_string(), -3);
    assert_eq!(o.satz_id, "id");
    assert_eq!(o.bezeich, "label");
    assert_eq!(o.score, -3);
}

#[test]
fn store_starts_empty_and_replace_installs() {
    let mut store = CatalogStore::new();
    assert!(search_article(store.current(), "").is_empty());
    store.replace(ArtikelListe { artikel_liste: vec![art("A1", "Hammer")] });
    let rs = search_article(store.current(), "hammer");
    assert_eq!(ids(&rs), vec!["A1".to_string()]);
}

#[test]
fn reload_installs_a_well_formed_document() {
    let mut store = CatalogStore::new();
    let doc = r#"{"artikel_liste": [{"satz_id": "A1", "bezeich01": "Red Hammer"}]}"#;
    assert!(store.reload(Some(doc)));
    let rs = search_article(store.current(), "hammer");
    assert_eq!(ids(&rs), vec!["A1".to_string()]);
    assert_eq!(rs[0].bezeich, "Red Hammer");
}

#[test]
fn reload_twice_with_same_document_changes_nothing() {
    let doc = r#"{"artikel_liste": [
        {"satz_id": "A1", "bezeich01": "Red Hammer"},
        {"satz_id": "A2", "bezeich01": "Blue Hammer"}
    ]}"#;
    let mut store = CatalogStore::new();
    assert!(store.reload(Some(doc)));
    let before: Vec<(String, String, i64)> = search_article(store.current(), "hammer")
        .into_iter()
        .map(|r| (r.satz_id, r.bezeich, r.score))
        .collect();
    assert!(store.reload(Some(doc)));
    let after: Vec<(String, String, i64)> = search_article(store.current(), "hammer")
        .into_iter()
        .map(|r| (r.satz_id, r.bezeich, r.score))
        .collect();
    assert_eq!(before, after);
    assert_eq!(before.len(), 2);
}

#[test]
fn failed_reload_keeps_the_old_catalog() {
    let doc = r#"{"artikel_liste": [{"satz_id": "A1", "bezeich01": "Red Hammer"}]}"#;
    let mut store = CatalogStore::new();
    assert!(store.reload(Some(doc)));
    let before: Vec<(String, String, i64)> = search_article(store.current(), "hammer")
        .into_iter()
        .map(|r| (r.satz_id, r.bezeich, r.score))
        .collect();
    // a malformed document must leave the catalog untouched
    assert!(!store.reload(Some("{\"artikel_liste\": [ oops")));
    // a failed read as well
    assert!(!store.reload(None));
    let after: Vec<(String, String, i64)> = search_article(store.current(), "hammer")
        .into_iter()
        .map(|r| (r.satz_id, r.bezeich, r.score))
        .collect();
    assert_eq!(before, after);
}

#[test]
fn reload_sanitizes_control_characters() {
    // the control character inside the label is dropped by sanitation
    // before parsing; the spaces stay
    let doc = "{\"artikel_liste\": [{\"satz_id\": \"A1\", \"bezeich01\": \"Red\u{1} Hammer\"}]}";
    let mut store = CatalogStore::new();
    assert!(store.reload(Some(doc)));
    let rs = search_article(store.current(), "hammer");
    assert_eq!(rs[0].bezeich, "Red Hammer");
}

#[test]
fn reload_interval_policy() {
    assert_eq!(reload_interval_secs(None), 60);
    assert_eq!(reload_interval_secs(Some(120)), 120);
    assert_eq!(reload_interval_secs(Some(1)), 5);
    assert_eq!(reload_interval_secs(Some(100000)), 600);
}
