use vstd::prelude::*;

verus! {

/// Mathematical view of one attribute entry: name, value, unit.
pub struct MerkmalView {
    pub merkmal: Seq<char>,
    pub wert: Seq<char>,
    pub einheit: Seq<char>,
}

/// One attribute of an article: a name (`merkmal`), a value (`wert`)
/// and a unit (`einheit`).
pub struct Merkmal {
    pub merkmal: String,
    pub wert: String,
    pub einheit: String,
}

impl View for Merkmal {
    type V = MerkmalView;

    open spec fn view(&self) -> MerkmalView {
        MerkmalView { merkmal: self.merkmal@, wert: self.wert@, einheit: self.einheit@ }
    }
}

/// Mathematical view of one article record.
pub struct ArtikelView {
    pub satz_id: Seq<char>,
    pub art_nr01: Seq<char>,
    pub art_nr02: Seq<char>,
    pub bezeich01: Seq<char>,
    pub bezeich02: Seq<char>,
    pub bezeich03: Seq<char>,
    pub bezeich04: Seq<char>,
    pub match01: Seq<char>,
    pub match02: Seq<char>,
    pub farbcode: Seq<char>,
    pub abmessung: Seq<char>,
    pub gewicht: Seq<char>,
    pub sn: Seq<char>,
    pub diniso: Seq<char>,
    pub gtyp: Seq<char>,
    pub katbest01: Seq<char>,
    pub ean_code: Seq<char>,
    pub merkmale: Seq<MerkmalView>,
}

/// One catalog record: a unique identifier, code and description fields,
/// the two match-code fields, and an ordered list of attributes.
pub struct Artikel {
    pub satz_id: String,
    pub art_nr01: String,
    pub art_nr02: String,
    pub bezeich01: String,
    pub bezeich02: String,
    pub bezeich03: String,
    pub bezeich04: String,
    pub match01: String,
    pub match02: String,
    pub farbcode: String,
    pub abmessung: String,
    pub gewicht: String,
    pub sn: String,
    pub diniso: String,
    pub gtyp: String,
    pub katbest01: String,
    pub ean_code: String,
    pub merkmale: Vec<Merkmal>,
}

impl View for Artikel {
    type V = ArtikelView;

    open spec fn view(&self) -> ArtikelView {
        ArtikelView {
            satz_id: self.satz_id@,
            art_nr01: self.art_nr01@,
            art_nr02: self.art_nr02@,
            bezeich01: self.bezeich01@,
            bezeich02: self.bezeich02@,
            bezeich03: self.bezeich03@,
            bezeich04: self.bezeich04@,
            match01: self.match01@,
            match02: self.match02@,
            farbcode: self.farbcode@,
            abmessung: self.abmessung@,
            gewicht: self.gewicht@,
            sn: self.sn@,
            diniso: self.diniso@,
            gtyp: self.gtyp@,
            katbest01: self.katbest01@,
            ean_code: self.ean_code@,
            merkmale: self.merkmale@.map_values(|m: Merkmal| m@),
        }
    }
}

/// The whole catalog: an ordered sequence of records, replaced as a unit.
pub struct ArtikelListe {
    pub artikel_liste: Vec<Artikel>,
}

impl View for ArtikelListe {
    type V = Seq<ArtikelView>;

    open spec fn view(&self) -> Seq<ArtikelView> {
        self.artikel_liste@.map_values(|a: Artikel| a@)
    }
}

impl Default for ArtikelListe {
    /// The catalog the service starts with, before the first reload: empty.
    fn default() -> (r: ArtikelListe)
        ensures
            r@ == Seq::<ArtikelView>::empty(),
    {
        let r = ArtikelListe { artikel_liste: Vec::new() };
        proof {
            assert(r@ =~= Seq::<ArtikelView>::empty());
        }
        r
    }
}

/// A query, as the request layer hands it to the engine.
pub struct ArtInput {
    pub search: String,
}

/// Mathematical view of one search result.
pub struct ArtOutputView {
    pub satz_id: Seq<char>,
    pub bezeich: Seq<char>,
    pub score: i64,
}

/// One search result: record identifier, display label, score.
pub struct ArtOutput {
    pub satz_id: String,
    pub bezeich: String,
    pub score: i64,
}

impl View for ArtOutput {
    type V = ArtOutputView;

    open spec fn view(&self) -> ArtOutputView {
        ArtOutputView { satz_id: self.satz_id@, bezeich: self.bezeich@, score: self.score }
    }
}

impl ArtOutput {
    pub fn new(satz_id: String, bezeich: String, score: i64) -> (r: ArtOutput)
        ensures
            r@ == (ArtOutputView { satz_id: satz_id@, bezeich: bezeich@, score: score }),
    {
        ArtOutput { satz_id, bezeich, score }
    }
}

/// The haystack contribution of the attribute list in the full projection:
/// a space, the value, a space, the unit, for each attribute in order.
pub open spec fn sp_join_merkmale_full(ms: Seq<MerkmalView>) -> Seq<char>
    decreases ms.len(),
{
    if ms.len() == 0 {
        Seq::empty()
    } else {
        sp_join_merkmale_full(ms.drop_last()) + " "@ + ms.last().wert + " "@ + ms.last().einheit
    }
}

/// The scalar fields of a record, space-joined in the fixed projection order.
pub open spec fn sp_fields_text(a: ArtikelView) -> Seq<char> {
    a.bezeich01 + " "@ + a.bezeich02 + " "@ + a.bezeich03 + " "@ + a.bezeich04 + " "@
        + a.match01 + " "@ + a.match02 + " "@ + a.farbcode + " "@ + a.abmessung + " "@ + a.gewicht
        + " "@ + a.sn + " "@ + a.diniso + " "@ + a.gtyp + " "@ + a.art_nr01 + " "@ + a.art_nr02
        + " "@ + a.katbest01 + " "@ + a.ean_code + " "@ + a.satz_id
}

/// The full-text projection: every scalar field, then every attribute.
pub open spec fn sp_full_text(a: ArtikelView) -> Seq<char> {
    sp_fields_text(a) + sp_join_merkmale_full(a.merkmale)
}

/// The attributes-only projection: value, space, unit, space, per attribute.
pub open spec fn sp_merkmale_text(ms: Seq<MerkmalView>) -> Seq<char>
    decreases ms.len(),
{
    if ms.len() == 0 {
        Seq::empty()
    } else {
        sp_merkmale_text(ms.drop_last()) + ms.last().wert + " "@ + ms.last().einheit + " "@
    }
}

/// The matchcode-only projection: the two match fields, space-joined.
pub open spec fn sp_matchcode_text(a: ArtikelView) -> Seq<char> {
    a.match01 + " "@ + a.match02
}

impl Artikel {
    /// The full-text search haystack of this record.
    pub fn get_string(&self) -> (r: String)
        ensures
            r@ == sp_full_text(self@),
    {
        let mut s = String::new();
        s.append(self.bezeich01.as_str());
        s.append(" ");
        s.append(self.bezeich02.as_str());
        s.append(" ");
        s.append(self.bezeich03.as_str());
        s.append(" ");
        s.append(self.bezeich04.as_str());
        s.append(" ");
        s.append(self.match01.as_str());
        s.append(" ");
        s.append(self.match02.as_str());
        s.append(" ");
        s.append(self.farbcode.as_str());
        s.append(" ");
        s.append(self.abmessung.as_str());
        s.append(" ");
        s.append(self.gewicht.as_str());
        s.append(" ");
        s.append(self.sn.as_str());
        s.append(" ");
        s.append(self.diniso.as_str());
        s.append(" ");
        s.append(self.gtyp.as_str());
        s.append(" ");
        s.append(self.art_nr01.as_str());
        s.append(" ");
        s.append(self.art_nr02.as_str());
        s.append(" ");
        s.append(self.katbest01.as_str());
        s.append(" ");
        s.append(self.ean_code.as_str());
        s.append(" ");
        s.append(self.satz_id.as_str());
        assert(s@ == sp_fields_text(self@));
        let mut i: usize = 0;
        while i < self.merkmale.len()
            invariant
                i <= self.merkmale.len(),
                s@ == sp_fields_text(self@) + sp_join_merkmale_full(
                    self@.merkmale.take(i as int),
                ),
            decreases self.merkmale.len() - i,
        {
            let m = &self.merkmale[i];
            s.append(" ");
            s.append(m.wert.as_str());
            s.append(" ");
            s.append(m.einheit.as_str());
            proof {
                let ms = self@.merkmale;
                assert(ms.take(i + 1).drop_last() =~= ms.take(i as int));
                assert(ms.take(i + 1).last() == ms[i as int]);
                assert(ms[i as int] == self.merkmale@[i as int]@);
            }
            i = i + 1;
        }
        proof {
            assert(self@.merkmale.take(self.merkmale.len() as int) =~= self@.merkmale);
        }
        s
    }

    /// The attributes-only search haystack of this record.
    pub fn get_string_merkmale(&self) -> (r: String)
        ensures
            r@ == sp_merkmale_text(self@.merkmale),
    {
        let mut s = String::new();
        proof {
            assert(s@ =~= sp_merkmale_text(self@.merkmale.take(0)));
        }
        let mut i: usize = 0;
        while i < self.merkmale.len()
            invariant
                i <= self.merkmale.len(),
                s@ == sp_merkmale_text(self@.merkmale.take(i as int)),
            decreases self.merkmale.len() - i,
        {
            let m = &self.merkmale[i];
            s.append(m.wert.as_str());
            s.append(" ");
            s.append(m.einheit.as_str());
            s.append(" ");
            proof {
                let ms = self@.merkmale;
                assert(ms.take(i + 1).drop_last() =~= ms.take(i as int));
                assert(ms.take(i + 1).last() == ms[i as int]);
                assert(ms[i as int] == self.merkmale@[i as int]@);
            }
            i = i + 1;
        }
        proof {
            assert(self@.merkmale.take(self.merkmale.len() as int) =~= self@.merkmale);
        }
        s
    }

    /// The matchcode-only search haystack of this record.
    pub fn get_string_matchcode(&self) -> (r: String)
        ensures
            r@ == sp_matchcode_text(self@),
    {
        let mut s = String::new();
        s.append(self.match01.as_str());
        s.append(" ");
        s.append(self.match02.as_str());
        s
    }
}

} // verus!
