//! Sage editions and their table mappings: detection from probed table
//! names, and the choice between a manual selection, a detection and a
//! custom mapping.
use vstd::prelude::*;
use crate::connection::ConnectionConfig;
use crate::sql::strings_view;
use crate::text::{ascii_lower, eq_ignore_ascii_case, eq_ignore_case, is_blank, is_blank_str, is_ws, lower_char, str_eq, to_ascii_lowercase, trim, trim_end, trim_start, trim_str};

verus! {

/// The accounting product a database belongs to.
#[derive(Clone, Copy, Debug, PartialEq, Eq, Structural)]
pub enum SageEdition {
    Sage100,
    Sage1000,
    SageX3,
    Generic,
}

impl SageEdition {
    pub open spec fn name(self) -> Seq<char> {
        match self {
            SageEdition::Sage100 => "sage100"@,
            SageEdition::Sage1000 => "sage1000"@,
            SageEdition::SageX3 => "sagex3"@,
            SageEdition::Generic => "generic"@,
        }
    }

    /// The edition's identifier, as stored in profiles.
    pub fn as_str(&self) -> (r: &'static str)
        ensures
            r@ == self.name(),
    {
        match self {
            SageEdition::Sage100 => "sage100",
            SageEdition::Sage1000 => "sage1000",
            SageEdition::SageX3 => "sagex3",
            SageEdition::Generic => "generic",
        }
    }

    pub fn is_generic(&self) -> (b: bool)
        ensures
            b == (*self == SageEdition::Generic),
    {
        match self {
            SageEdition::Generic => true,
            _ => false,
        }
    }
}

/// Where an edition keeps its entries, accounts, third parties and
/// journals, and the columns read from them.
#[derive(Debug)]
pub struct SageSchema {
    pub edition: SageEdition,
    pub confidence: u8,
    pub table_ecritures: String,
    pub table_comptes: String,
    pub table_tiers: String,
    pub table_journaux: String,
    pub col_date: String,
    pub col_journal: String,
    pub col_compte: String,
    pub col_libelle: String,
    pub col_piece: String,
    pub col_lettrage: String,
    pub col_debit: String,
    pub col_credit: String,
    pub col_tiers: String,
    pub col_compte_num: String,
    pub col_compte_lib: String,
    pub col_compte_type: String,
    pub col_tiers_code: String,
    pub col_tiers_nom: String,
    pub col_tiers_type: String,
}

/// The table and column names of a schema, in declaration order.
pub open spec fn schema_texts(s: SageSchema) -> Seq<Seq<char>> {
    seq![
        s.table_ecritures@, s.table_comptes@, s.table_tiers@, s.table_journaux@, s.col_date@,
        s.col_journal@, s.col_compte@, s.col_libelle@, s.col_piece@, s.col_lettrage@,
        s.col_debit@, s.col_credit@, s.col_tiers@, s.col_compte_num@, s.col_compte_lib@,
        s.col_compte_type@, s.col_tiers_code@, s.col_tiers_nom@, s.col_tiers_type@,
    ]
}

/// The names each edition's standard mapping uses, in the order of `schema_texts`.
pub open spec fn edition_texts(e: SageEdition) -> Seq<Seq<char>> {
    match e {
        SageEdition::Sage100 => seq![
            "F_ECRITUREC"@, "F_COMPTEG"@, "F_COMPTET"@, "F_JOURNAUX"@, "EC_Date"@, "JO_Num"@,
            "CG_Num"@, "EC_Intitule"@, "EC_Piece"@, "EC_Lettrage"@,
            "CASE WHEN e.[EC_Sens] = 0 THEN e.[EC_Montant] ELSE 0 END"@,
            "CASE WHEN e.[EC_Sens] = 1 THEN e.[EC_Montant] ELSE 0 END"@, "CT_Num"@, "CG_Num"@,
            "CG_Intitule"@, "CG_Type"@, "CT_Num"@, "CT_Intitule"@, "CT_Type"@,
        ],
        SageEdition::Sage1000 => seq![
            "TECRITURE"@, "TCOMPTEGENERAL"@, "TTIERS"@, "TJOURNAL"@, "eDate"@, ""@,
            "oidcompteGeneral"@, "reference"@, "oidpiece"@, "CodeLettrageExterne"@, "debit"@,
            "credit"@, "oidroleTiers"@, "codeCompte"@, "Caption"@, ""@, "code"@, "Caption"@, ""@,
        ],
        SageEdition::SageX3 => seq![
            "GACCENTRY"@, "GACCOUNT"@, "BPARTNER"@, "GJOURNAL"@, ""@, ""@, ""@, ""@, ""@, ""@,
            ""@, ""@, ""@, ""@, ""@, ""@, ""@, ""@, ""@,
        ],
        SageEdition::Generic => seq![
            ""@, ""@, ""@, ""@, ""@, ""@, ""@, ""@, ""@, ""@, ""@, ""@, ""@, ""@, ""@, ""@, ""@,
            ""@, ""@,
        ],
    }
}

/// The confidence of an edition's standard mapping.
pub open spec fn edition_confidence(e: SageEdition) -> u8 {
    match e {
        SageEdition::Generic => 0,
        _ => 100,
    }
}

/// `s` is the standard mapping of `e`, with confidence `confidence`.
pub open spec fn schema_is(s: SageSchema, e: SageEdition, confidence: u8) -> bool {
    s.edition == e && s.confidence == confidence && schema_texts(s) == edition_texts(e)
}

/// Two schemas name the same edition, confidence, tables and columns.
pub open spec fn same_schema(a: SageSchema, b: SageSchema) -> bool {
    a.edition == b.edition && a.confidence == b.confidence && schema_texts(a) == schema_texts(b)
}

fn make_schema(
    edition: SageEdition,
    confidence: u8,
    t: [&str; 19],
) -> (r: SageSchema)
    ensures
        r.edition == edition,
        r.confidence == confidence,
        schema_texts(r) == Seq::new(19, |i: int| t@[i]@),
{
    let r = SageSchema {
        edition,
        confidence,
        table_ecritures: String::from_str(t[0]),
        table_comptes: String::from_str(t[1]),
        table_tiers: String::from_str(t[2]),
        table_journaux: String::from_str(t[3]),
        col_date: String::from_str(t[4]),
        col_journal: String::from_str(t[5]),
        col_compte: String::from_str(t[6]),
        col_libelle: String::from_str(t[7]),
        col_piece: String::from_str(t[8]),
        col_lettrage: String::from_str(t[9]),
        col_debit: String::from_str(t[10]),
        col_credit: String::from_str(t[11]),
        col_tiers: String::from_str(t[12]),
        col_compte_num: String::from_str(t[13]),
        col_compte_lib: String::from_str(t[14]),
        col_compte_type: String::from_str(t[15]),
        col_tiers_code: String::from_str(t[16]),
        col_tiers_nom: String::from_str(t[17]),
        col_tiers_type: String::from_str(t[18]),
    };
    assert(schema_texts(r) =~= Seq::new(19, |i: int| t@[i]@));
    r
}

impl SageSchema {
    /// The standard mapping of an edition.
    pub fn for_edition(edition: &SageEdition) -> (r: SageSchema)
        ensures
            schema_is(r, *edition, edition_confidence(*edition)),
    {
        let t: [&str; 19] = match edition {
            SageEdition::Sage100 => [
                "F_ECRITUREC", "F_COMPTEG", "F_COMPTET", "F_JOURNAUX", "EC_Date", "JO_Num",
                "CG_Num", "EC_Intitule", "EC_Piece", "EC_Lettrage",
                "CASE WHEN e.[EC_Sens] = 0 THEN e.[EC_Montant] ELSE 0 END",
                "CASE WHEN e.[EC_Sens] = 1 THEN e.[EC_Montant] ELSE 0 END", "CT_Num", "CG_Num",
                "CG_Intitule", "CG_Type", "CT_Num", "CT_Intitule", "CT_Type",
            ],
            SageEdition::Sage1000 => [
                "TECRITURE", "TCOMPTEGENERAL", "TTIERS", "TJOURNAL", "eDate", "",
                "oidcompteGeneral", "reference", "oidpiece", "CodeLettrageExterne", "debit",
                "credit", "oidroleTiers", "codeCompte", "Caption", "", "code", "Caption", "",
            ],
            SageEdition::SageX3 => [
                "GACCENTRY", "GACCOUNT", "BPARTNER", "GJOURNAL", "", "", "", "", "", "", "", "",
                "", "", "", "", "", "", "",
            ],
            SageEdition::Generic => [
                "", "", "", "", "", "", "", "", "", "", "", "", "", "", "", "", "", "", "",
            ],
        };
        let confidence: u8 = match edition {
            SageEdition::Generic => 0,
            _ => 100,
        };
        let r = make_schema(*edition, confidence, t);
        assert(Seq::new(19, |i: int| t@[i]@) =~= edition_texts(*edition));
        r
    }

    /// A copy with the same edition, confidence and names.
    pub fn duplicate(&self) -> (r: SageSchema)
        ensures
            same_schema(r, *self),
    {
        let r = SageSchema {
            edition: self.edition,
            confidence: self.confidence,
            table_ecritures: String::from_str(self.table_ecritures.as_str()),
            table_comptes: String::from_str(self.table_comptes.as_str()),
            table_tiers: String::from_str(self.table_tiers.as_str()),
            table_journaux: String::from_str(self.table_journaux.as_str()),
            col_date: String::from_str(self.col_date.as_str()),
            col_journal: String::from_str(self.col_journal.as_str()),
            col_compte: String::from_str(self.col_compte.as_str()),
            col_libelle: String::from_str(self.col_libelle.as_str()),
            col_piece: String::from_str(self.col_piece.as_str()),
            col_lettrage: String::from_str(self.col_lettrage.as_str()),
            col_debit: String::from_str(self.col_debit.as_str()),
            col_credit: String::from_str(self.col_credit.as_str()),
            col_tiers: String::from_str(self.col_tiers.as_str()),
            col_compte_num: String::from_str(self.col_compte_num.as_str()),
            col_compte_lib: String::from_str(self.col_compte_lib.as_str()),
            col_compte_type: String::from_str(self.col_compte_type.as_str()),
            col_tiers_code: String::from_str(self.col_tiers_code.as_str()),
            col_tiers_nom: String::from_str(self.col_tiers_nom.as_str()),
            col_tiers_type: String::from_str(self.col_tiers_type.as_str()),
        };
        assert(schema_texts(r) =~= schema_texts(*self));
        r
    }
}

// ---------------------------------------------------------------------------
// Detection
// ---------------------------------------------------------------------------

/// The outcome of probing a database for the tables of each edition.
#[derive(Debug)]
pub struct DetectionResult {
    pub edition: String,
    pub confidence: u8,
    pub evidence: Vec<String>,
    pub schema: SageSchema,
}

pub open spec fn prefixed(p: Seq<char>, names: Seq<Seq<char>>) -> Seq<Seq<char>> {
    names.map_values(|n: Seq<char>| p + n)
}

/// Some probed name is `TECRITURE`, ignoring ASCII case.
pub open spec fn names_entry_table(names: Seq<Seq<char>>) -> bool {
    exists|i: int| 0 <= i < names.len() && eq_ignore_case(#[trigger] names[i], "TECRITURE"@)
}

/// The detection the probes give.
pub open spec fn detection_of(
    found100: Seq<Seq<char>>,
    found_x3: Seq<Seq<char>>,
    found1000: Seq<Seq<char>>,
    has_edate: bool,
    r: DetectionResult,
) -> bool {
    if found100.len() >= 3 {
        &&& r.edition@ == "sage100"@
        &&& r.confidence == 95
        &&& strings_view(r.evidence@) == found100
        &&& schema_is(r.schema, SageEdition::Sage100, 100)
    } else if found_x3.len() >= 3 {
        &&& r.edition@ == "sagex3"@
        &&& r.confidence == 92
        &&& strings_view(r.evidence@) == found_x3
        &&& schema_is(r.schema, SageEdition::SageX3, 100)
    } else if found1000.len() >= 4 {
        let full = names_entry_table(found1000) && has_edate;
        let confidence: u8 = if full {
            99
        } else {
            95
        };
        &&& r.edition@ == "sage1000"@
        &&& r.confidence == confidence
        &&& strings_view(r.evidence@) == (if full {
            found1000.push("TECRITURE.eDate"@)
        } else {
            found1000
        })
        &&& schema_is(r.schema, SageEdition::Sage1000, confidence)
    } else {
        &&& r.edition@ == "generic"@
        &&& r.confidence == 0
        &&& strings_view(r.evidence@) == prefixed("sage100:"@, found100) + prefixed(
            "sagex3:"@,
            found_x3,
        ) + prefixed("sage1000:"@, found1000) + (if has_edate {
            seq!["sage1000:TECRITURE.eDate"@]
        } else {
            seq![]
        })
        &&& schema_is(r.schema, SageEdition::Generic, 0)
    }
}

fn any_entry_table(names: &Vec<String>) -> (b: bool)
    ensures
        b == names_entry_table(strings_view(names@)),
{
    let mut i: usize = 0;
    while i < names.len()
        invariant
            i <= names.len(),
            forall|k: int| 0 <= k < i ==> !eq_ignore_case(#[trigger] names@[k]@, "TECRITURE"@),
        decreases names.len() - i,
    {
        if eq_ignore_ascii_case(names[i].as_str(), "TECRITURE") {
            assert(strings_view(names@)[i as int] == names@[i as int]@);
            return true;
        }
        i = i + 1;
    }
    assert forall|k: int| 0 <= k < strings_view(names@).len() implies !eq_ignore_case(
        #[trigger] strings_view(names@)[k],
        "TECRITURE"@,
    ) by {
        assert(strings_view(names@)[k] == names@[k]@);
    }
    false
}

fn push_prefixed(out: &mut Vec<String>, p: &str, names: &Vec<String>)
    ensures
        strings_view(final(out)@) == strings_view(old(out)@) + prefixed(p@, strings_view(names@)),
{
    let ghost start = strings_view(out@);
    let mut i: usize = 0;
    while i < names.len()
        invariant
            i <= names.len(),
            strings_view(out@) == start + prefixed(p@, strings_view(names@).take(i as int)),
        decreases names.len() - i,
    {
        let mut s = String::from_str(p);
        s.append(names[i].as_str());
        let ghost prev = out@;
        let ghost sv = s@;
        out.push(s);
        proof {
            assert(strings_view(out@) =~= strings_view(prev).push(sv));
            assert(strings_view(names@)[i as int] == names@[i as int]@);
            assert(prefixed(p@, strings_view(names@).take(i + 1)) =~= prefixed(
                p@,
                strings_view(names@).take(i as int),
            ).push(p@ + names@[i as int]@));
            assert(strings_view(out@) =~= start + prefixed(p@, strings_view(names@).take(i + 1)));
        }
        i = i + 1;
    }
    assert(strings_view(names@).take(names.len() as int) =~= strings_view(names@));
}

/// `detect_sage_schema_from_probes`: at least three Sage 100 tables make a
/// Sage 100 database, else at least three X3 tables an X3 one, else at least
/// four Sage 1000 tables a Sage 1000 one (more certain when `TECRITURE` has
/// its `eDate` column); otherwise the database is generic and every probe
/// result is kept, labelled by edition, as evidence.
pub fn detect_sage_schema_from_probes(
    found100: Vec<String>,
    found_x3: Vec<String>,
    found1000: Vec<String>,
    has_tecriture_edate: bool,
) -> (r: DetectionResult)
    ensures
        detection_of(
            strings_view(found100@),
            strings_view(found_x3@),
            strings_view(found1000@),
            has_tecriture_edate,
            r,
        ),
{
    if found100.len() >= 3 {
        return DetectionResult {
            edition: String::from_str("sage100"),
            confidence: 95,
            evidence: found100,
            schema: SageSchema::for_edition(&SageEdition::Sage100),
        };
    }
    if found_x3.len() >= 3 {
        return DetectionResult {
            edition: String::from_str("sagex3"),
            confidence: 92,
            evidence: found_x3,
            schema: SageSchema::for_edition(&SageEdition::SageX3),
        };
    }
    if found1000.len() >= 4 {
        let mut confidence: u8 = 95;
        let mut evidence = found1000;
        if any_entry_table(&evidence) && has_tecriture_edate {
            confidence = 99;
            evidence.push(String::from_str("TECRITURE.eDate"));
            assert(strings_view(evidence@) =~= strings_view(found1000@).push("TECRITURE.eDate"@));
        }
        let mut schema = SageSchema::for_edition(&SageEdition::Sage1000);
        schema.confidence = confidence;
        return DetectionResult {
            edition: String::from_str("sage1000"),
            confidence,
            evidence,
            schema,
        };
    }
    let mut evidence: Vec<String> = Vec::new();
    push_prefixed(&mut evidence, "sage100:", &found100);
    push_prefixed(&mut evidence, "sagex3:", &found_x3);
    push_prefixed(&mut evidence, "sage1000:", &found1000);
    if has_tecriture_edate {
        evidence.push(String::from_str("sage1000:TECRITURE.eDate"));
    }
    assert(strings_view(evidence@) =~= prefixed("sage100:"@, strings_view(found100@)) + prefixed(
        "sagex3:"@,
        strings_view(found_x3@),
    ) + prefixed("sage1000:"@, strings_view(found1000@)) + (if has_tecriture_edate {
        seq!["sage1000:TECRITURE.eDate"@]
    } else {
        seq![]
    }));
    DetectionResult {
        edition: String::from_str("generic"),
        confidence: 0,
        evidence,
        schema: SageSchema::for_edition(&SageEdition::Generic),
    }
}

// ---------------------------------------------------------------------------
// Resolution
// ---------------------------------------------------------------------------

/// Some table of the mapping is named (not blank).
pub open spec fn names_a_table(s: SageSchema) -> bool {
    !is_blank(s.table_ecritures@) || !is_blank(s.table_comptes@) || !is_blank(s.table_tiers@)
        || !is_blank(s.table_journaux@)
}

/// `has_custom_mapping`: the schema names at least one table.
pub fn has_custom_mapping(schema: &SageSchema) -> (b: bool)
    ensures
        b == names_a_table(*schema),
{
    !is_blank_str(schema.table_ecritures.as_str()) || !is_blank_str(schema.table_comptes.as_str())
        || !is_blank_str(schema.table_tiers.as_str()) || !is_blank_str(
        schema.table_journaux.as_str(),
    )
}

/// The schema chosen for a connection and why.
#[derive(Debug)]
pub struct SchemaResolutionOutcome {
    pub schema: SageSchema,
    pub source: &'static str,
    pub evidence: Vec<String>,
    pub confidence: u8,
}

/// A custom mapping is used only when it names a table.
pub open spec fn usable_custom(c: Option<SageSchema>) -> Option<SageSchema> {
    match c {
        Some(s) => if names_a_table(s) {
            Some(s)
        } else {
            None
        },
        None => None,
    }
}

/// The outcome of a manual choice of a standard edition.
pub open spec fn manual_outcome(r: SchemaResolutionOutcome, e: SageEdition, evidence: Seq<char>) -> bool {
    &&& schema_is(r.schema, e, edition_confidence(e))
    &&& r.confidence == edition_confidence(e)
    &&& r.source@ == "manual"@
    &&& strings_view(r.evidence@) == seq![evidence]
}

/// The outcome `resolve_schema_from_selection` gives.
pub open spec fn resolution_of(
    requested: Seq<char>,
    custom: Option<SageSchema>,
    detection: Option<DetectionResult>,
    r: SchemaResolutionOutcome,
) -> bool {
    let req = ascii_lower(trim(requested));
    let custom = usable_custom(custom);
    if req == "sage100"@ {
        manual_outcome(r, SageEdition::Sage100, "manual:sage100"@)
    } else if req == "sage1000"@ {
        manual_outcome(r, SageEdition::Sage1000, "manual:sage1000"@)
    } else if req == "sagex3"@ {
        manual_outcome(r, SageEdition::SageX3, "manual:sagex3"@)
    } else if req == "custom"@ {
        &&& (match custom {
            Some(c) => same_schema(r.schema, c),
            None => schema_is(r.schema, SageEdition::Generic, 0),
        })
        &&& r.confidence == r.schema.confidence
        &&& r.source@ == "custom"@
        &&& strings_view(r.evidence@) == seq!["manual:custom"@]
    } else {
        match detection {
            Some(d) if d.schema.edition != SageEdition::Generic => {
                &&& same_schema(r.schema, d.schema)
                &&& r.confidence == d.confidence
                &&& r.source@ == "auto-detect"@
                &&& strings_view(r.evidence@) == strings_view(d.evidence@)
            },
            _ => match custom {
                Some(c) => {
                    &&& same_schema(r.schema, c)
                    &&& r.confidence == c.confidence
                    &&& r.source@ == "custom-fallback"@
                    &&& strings_view(r.evidence@) == seq!["fallback:custom"@]
                },
                None => {
                    &&& r.source@ == "generic-fallback"@
                    &&& match detection {
                        Some(d) => {
                            &&& same_schema(r.schema, d.schema)
                            &&& r.confidence == d.confidence
                            &&& strings_view(r.evidence@) == strings_view(d.evidence@)
                        },
                        None => {
                            &&& schema_is(r.schema, SageEdition::Generic, 0)
                            &&& r.confidence == 0
                            &&& r.evidence@.len() == 0
                        },
                    }
                },
            },
        }
    }
}

fn one(s: &str) -> (v: Vec<String>)
    ensures
        strings_view(v@) == seq![s@],
{
    let mut v: Vec<String> = Vec::new();
    v.push(String::from_str(s));
    assert(strings_view(v@) =~= seq![s@]);
    v
}

fn manual(edition: SageEdition, evidence: &str) -> (r: SchemaResolutionOutcome)
    requires
        edition != SageEdition::Generic,
    ensures
        manual_outcome(r, edition, evidence@),
{
    let schema = SageSchema::for_edition(&edition);
    SchemaResolutionOutcome { confidence: schema.confidence, schema, source: "manual", evidence: one(evidence) }
}

proof fn lemma_trim_start_head(s: Seq<char>)
    ensures
        trim_start(s).len() > 0 ==> !is_ws(trim_start(s)[0]),
    decreases s.len(),
{
    if s.len() > 0 && is_ws(s[0]) {
        lemma_trim_start_head(s.drop_first());
    }
}

proof fn lemma_trim_end_prefix(s: Seq<char>)
    ensures
        trim_end(s).len() <= s.len(),
        trim_end(s) == s.take(trim_end(s).len() as int),
        trim_end(s).len() > 0 ==> !is_ws(trim_end(s).last()),
    decreases s.len(),
{
    if s.len() > 0 && is_ws(s.last()) {
        lemma_trim_end_prefix(s.drop_last());
        let n = trim_end(s.drop_last()).len() as int;
        assert(s.drop_last().take(n) =~= s.take(n));
    } else {
        assert(s.take(s.len() as int) =~= s);
    }
}

proof fn lemma_lower_keeps_non_space(c: char)
    requires
        !is_ws(c),
    ensures
        !is_ws(lower_char(c)),
        lower_char(lower_char(c)) == lower_char(c),
{
    if 'A' <= c && c <= 'Z' {
        assert(0x41 <= c as u32 <= 0x5a);
        assert(0x61 <= lower_char(c) as u32 <= 0x7a);
    }
}

/// A request already trimmed and lower-cased is left as it is by trimming
/// and lower-casing again.
pub proof fn lemma_normalized_request_is_fixed(e: Seq<char>)
    ensures
        ascii_lower(trim(ascii_lower(trim(e)))) == ascii_lower(trim(e)),
{
    let ts = trim_start(e);
    let t = trim_end(ts);
    lemma_trim_start_head(e);
    lemma_trim_end_prefix(ts);
    let l = ascii_lower(t);
    if l.len() > 0 {
        assert(t[0] == ts[0]);
        lemma_lower_keeps_non_space(t[0]);
        lemma_lower_keeps_non_space(t.last());
        assert(l[0] == lower_char(t[0]));
        assert(l.last() == lower_char(t.last()));
    }
    assert(trim_start(l) == l);
    assert(trim_end(l) == l);
    assert forall|k: int| 0 <= k < l.len() implies lower_char(#[trigger] l[k]) == l[k] by {
        let c = t[k];
        if 'A' <= c && c <= 'Z' {
            assert(0x61 <= lower_char(c) as u32 <= 0x7a);
        }
    }
    assert(ascii_lower(l) =~= l);
}

/// The edition a user asks for is read without regard to surrounding
/// spaces or letter case: a raw request and its trimmed, lower-cased form
/// resolve alike.
pub proof fn lemma_selection_ignores_case_and_spaces(
    requested: Seq<char>,
    custom_schema: Option<SageSchema>,
    detection: Option<DetectionResult>,
    r: SchemaResolutionOutcome,
)
    ensures
        resolution_of(requested, custom_schema, detection, r) == resolution_of(
            ascii_lower(trim(requested)),
            custom_schema,
            detection,
            r,
        ),
{
    lemma_normalized_request_is_fixed(requested);
}

/// `resolve_schema_from_selection`: a manual choice of a standard edition
/// wins; `custom` takes the custom mapping (or the generic one); otherwise a
/// non-generic detection, then a custom mapping that names a table, then
/// whatever the detection found (or nothing) as a generic fallback.
pub fn resolve_schema_from_selection(
    requested_edition: &str,
    custom_schema: Option<SageSchema>,
    detection: Option<DetectionResult>,
) -> (r: SchemaResolutionOutcome)
    ensures
        resolution_of(requested_edition@, custom_schema, detection, r),
{
    let trimmed = trim_str(requested_edition);
    let requested = to_ascii_lowercase(trimmed.as_str());
    let custom_schema = match custom_schema {
        Some(s) => if has_custom_mapping(&s) {
            Some(s)
        } else {
            None
        },
        None => None,
    };
    if str_eq(requested.as_str(), "sage100") {
        return manual(SageEdition::Sage100, "manual:sage100");
    }
    if str_eq(requested.as_str(), "sage1000") {
        return manual(SageEdition::Sage1000, "manual:sage1000");
    }
    if str_eq(requested.as_str(), "sagex3") {
        return manual(SageEdition::SageX3, "manual:sagex3");
    }
    if str_eq(requested.as_str(), "custom") {
        let schema = match custom_schema {
            Some(s) => s,
            None => SageSchema::for_edition(&SageEdition::Generic),
        };
        let confidence = schema.confidence;
        return SchemaResolutionOutcome { schema, confidence, source: "custom", evidence: one("manual:custom") };
    }
    match detection {
        Some(d) => {
            if !d.schema.edition.is_generic() {
                return SchemaResolutionOutcome {
                    confidence: d.confidence,
                    schema: d.schema,
                    source: "auto-detect",
                    evidence: d.evidence,
                };
            }
            match custom_schema {
                Some(c) => {
                    let confidence = c.confidence;
                    SchemaResolutionOutcome {
                        schema: c,
                        confidence,
                        source: "custom-fallback",
                        evidence: one("fallback:custom"),
                    }
                },
                None => SchemaResolutionOutcome {
                    confidence: d.confidence,
                    schema: d.schema,
                    source: "generic-fallback",
                    evidence: d.evidence,
                },
            }
        },
        None => match custom_schema {
            Some(c) => {
                let confidence = c.confidence;
                SchemaResolutionOutcome {
                    schema: c,
                    confidence,
                    source: "custom-fallback",
                    evidence: one("fallback:custom"),
                }
            },
            None => SchemaResolutionOutcome {
                schema: SageSchema::for_edition(&SageEdition::Generic),
                confidence: 0,
                source: "generic-fallback",
                evidence: Vec::new(),
            },
        },
    }
}

/// The mapping a profile names explicitly.
pub open spec fn explicit_schema_of(c: ConnectionConfig, r: Option<SageSchema>) -> bool {
    let ed = c.sage_edition@;
    if ed == "sage100"@ {
        r matches Some(s) && schema_is(s, SageEdition::Sage100, 100)
    } else if ed == "sage1000"@ {
        r matches Some(s) && schema_is(s, SageEdition::Sage1000, 100)
    } else if ed == "sagex3"@ {
        r matches Some(s) && schema_is(s, SageEdition::SageX3, 100)
    } else if ed == "custom"@ {
        r matches Some(s) && match c.custom_schema {
            Some(cs) => same_schema(s, cs),
            None => schema_is(s, SageEdition::Generic, 0),
        }
    } else {
        r is None
    }
}

/// `explicit_schema_for_connection`: the standard mapping of the edition a
/// profile names, its custom mapping (or the generic one) for `custom`, and
/// nothing for automatic detection.
pub fn explicit_schema_for_connection(connection: &ConnectionConfig) -> (r: Option<SageSchema>)
    ensures
        explicit_schema_of(*connection, r),
{
    let ed = connection.sage_edition.as_str();
    if str_eq(ed, "sage100") {
        Some(SageSchema::for_edition(&SageEdition::Sage100))
    } else if str_eq(ed, "sage1000") {
        Some(SageSchema::for_edition(&SageEdition::Sage1000))
    } else if str_eq(ed, "sagex3") {
        Some(SageSchema::for_edition(&SageEdition::SageX3))
    } else if str_eq(ed, "custom") {
        match &connection.custom_schema {
            Some(s) => Some(s.duplicate()),
            None => Some(SageSchema::for_edition(&SageEdition::Generic)),
        }
    } else {
        None
    }
}

// ---------------------------------------------------------------------------
// Routing analytics to the Sage 1000 queries
// ---------------------------------------------------------------------------

pub open spec fn is_sage1000(schema: Option<&SageSchema>) -> bool {
    match schema {
        Some(s) => s.edition == SageEdition::Sage1000,
        None => false,
    }
}

/// `is_sage1000_schema`.
pub fn is_sage1000_schema(schema: Option<&SageSchema>) -> (b: bool)
    ensures
        b == is_sage1000(schema),
{
    match schema {
        Some(s) => match s.edition {
            SageEdition::Sage1000 => true,
            _ => false,
        },
        None => false,
    }
}

/// `sage1000_route_source`: why the Sage 1000 queries are used, if they are:
/// the schema hint first, then the probed tables.
pub fn sage1000_route_source(schema: Option<&SageSchema>, has_sage1000_tables: bool) -> (r: Option<
    &'static str,
>)
    ensures
        is_sage1000(schema) ==> (r matches Some(s) && s@ == "schema_hint"@),
        !is_sage1000(schema) && has_sage1000_tables ==> (r matches Some(s) && s@ == "database_probe"@),
        !is_sage1000(schema) && !has_sage1000_tables ==> r is None,
{
    if is_sage1000_schema(schema) {
        Some("schema_hint")
    } else if has_sage1000_tables {
        Some("database_probe")
    } else {
        None
    }
}

} // verus!
