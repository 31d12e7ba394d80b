//! The labelled reference clauses that the nearest-neighbour lookup reads.

use vstd::prelude::*;
use vstd::string::*;
use crate::text::{chars_of, same_chars, string_of};
use crate::verdict::Label;

verus! {

/// A reference clause with its label.
#[derive(Debug)]
pub struct ReferenceRecord {
    pub text: String,
    pub label: Label,
}

/// A reference record as plain values.
pub struct RecordView {
    pub text: Seq<char>,
    pub label: Label,
}

impl View for ReferenceRecord {
    type V = RecordView;

    open spec fn view(&self) -> RecordView {
        RecordView { text: self.text@, label: self.label }
    }
}

/// A raw row as the loader hands it over: a text and the name of a label.
pub struct RawRow {
    pub text: String,
    pub label: String,
}

/// The records of a corpus as plain values.
pub open spec fn record_views(v: Seq<ReferenceRecord>) -> Seq<RecordView> {
    Seq::new(v.len(), |i: int| v[i]@)
}

/// The label that a name stands for, if any.
pub open spec fn label_named(name: Seq<char>) -> Option<Label> {
    if name == "Allowed"@ {
        Some(Label::Allowed)
    } else if name == "Not Allowed"@ {
        Some(Label::NotAllowed)
    } else {
        None
    }
}

/// The record that a raw row stands for: none where its text is empty or its
/// label is not the name of a label.
pub open spec fn record_of(text: Seq<char>, label: Seq<char>) -> Option<RecordView> {
    match label_named(label) {
        Some(l) => if text.len() > 0 {
            Some(RecordView { text, label: l })
        } else {
            None
        },
        None => None,
    }
}

/// The valid records among raw rows, in order.
pub open spec fn valid_records(rows: Seq<RawRow>) -> Seq<RecordView>
    decreases rows.len(),
{
    if rows.len() == 0 {
        Seq::<RecordView>::empty()
    } else {
        let head = valid_records(rows.drop_last());
        match record_of(rows.last().text@, rows.last().label@) {
            Some(r) => head.push(r),
            None => head,
        }
    }
}

/// The five records that stand in when no row is valid.
pub open spec fn seed_records() -> Seq<RecordView> {
    seq![
        RecordView {
            text: "The tenant shall maintain the property in good condition"@,
            label: Label::Allowed,
        },
        RecordView {
            text: "The tenant shall pay a late fee of 20% for each day of delay"@,
            label: Label::NotAllowed,
        },
        RecordView {
            text: "Either party may terminate this agreement with 30 days notice"@,
            label: Label::Allowed,
        },
        RecordView {
            text: "The landlord may enter the premises at any time without notice"@,
            label: Label::NotAllowed,
        },
        RecordView {
            text: "Rent shall be paid on the first day of each month"@,
            label: Label::Allowed,
        },
    ]
}

/// What a corpus built from raw rows holds: the valid rows, or the seed
/// records where there is none.
pub open spec fn loaded_records(rows: Seq<RawRow>) -> Seq<RecordView> {
    if valid_records(rows).len() == 0 {
        seed_records()
    } else {
        valid_records(rows)
    }
}

/// Reads the name of a label.
pub fn parse_label(name: &str) -> (r: Option<Label>)
    ensures
        r == label_named(name@),
{
    let n = chars_of(name);
    let a = chars_of("Allowed");
    let b = chars_of("Not Allowed");
    if same_chars(&n, &a) {
        Some(Label::Allowed)
    } else if same_chars(&n, &b) {
        Some(Label::NotAllowed)
    } else {
        None
    }
}

/// The read-only collection of reference records.
#[derive(Debug)]
pub struct LabeledCorpus {
    pub records: Vec<ReferenceRecord>,
}

impl View for LabeledCorpus {
    type V = Seq<RecordView>;

    open spec fn view(&self) -> Seq<RecordView> {
        record_views(self.records@)
    }
}

fn seed(text: &str, label: Label) -> (r: ReferenceRecord)
    ensures
        r@ == (RecordView { text: text@, label }),
{
    let c = chars_of(text);
    ReferenceRecord { text: string_of(&c), label }
}

impl LabeledCorpus {
    /// A corpus is well formed when it holds a record and no record's text is empty.
    pub open spec fn wf(&self) -> bool {
        &&& self@.len() > 0
        &&& forall|i: int| 0 <= i < self@.len() ==> (#[trigger] self@[i]).text.len() > 0
    }

    /// The corpus of the five seed records.
    pub fn load_fallback_data() -> (r: LabeledCorpus)
        ensures
            r@ == seed_records(),
            r.wf(),
    {
        let mut v: Vec<ReferenceRecord> = Vec::new();
        v.push(seed("The tenant shall maintain the property in good condition", Label::Allowed));
        v.push(
            seed("The tenant shall pay a late fee of 20% for each day of delay", Label::NotAllowed),
        );
        v.push(
            seed("Either party may terminate this agreement with 30 days notice", Label::Allowed),
        );
        v.push(
            seed(
                "The landlord may enter the premises at any time without notice",
                Label::NotAllowed,
            ),
        );
        v.push(seed("Rent shall be paid on the first day of each month", Label::Allowed));
        let r = LabeledCorpus { records: v };
        proof {
            reveal_strlit("The tenant shall maintain the property in good condition");
            reveal_strlit("The tenant shall pay a late fee of 20% for each day of delay");
            reveal_strlit("Either party may terminate this agreement with 30 days notice");
            reveal_strlit("The landlord may enter the premises at any time without notice");
            reveal_strlit("Rent shall be paid on the first day of each month");
            assert(r@ =~= seed_records());
        }
        r
    }

    /// Builds the corpus from raw rows: rows with an empty text or an unknown
    /// label are dropped, and the seed records stand in where no row is left.
    pub fn load_contract_dataset(rows: Vec<RawRow>) -> (r: LabeledCorpus)
        ensures
            r@ == loaded_records(rows@),
            r.wf(),
    {
        let mut v: Vec<ReferenceRecord> = Vec::new();
        let mut i: usize = 0;
        assert(record_views(v@) =~= valid_records(rows@.take(0)));
        while i < rows.len()
            invariant
                i <= rows.len(),
                record_views(v@) == valid_records(rows@.take(i as int)),
                forall|j: int| 0 <= j < v.len() ==> (#[trigger] v@[j]).text@.len() > 0,
            decreases rows.len() - i,
        {
            let ghost before = record_views(v@);
            assert(rows@.take(i + 1).drop_last() =~= rows@.take(i as int));
            assert(rows@.take(i + 1).last() == rows@[i as int]);
            let row = &rows[i];
            match parse_label(row.label.as_str()) {
                Some(l) => {
                    if row.text.as_str().unicode_len() > 0 {
                        let rec = ReferenceRecord { text: row.text.clone(), label: l };
                        v.push(rec);
                        assert(record_views(v@) =~= before.push(rec@));
                    }
                },
                None => {},
            }
            i += 1;
        }
        assert(rows@.take(rows.len() as int) =~= rows@);
        if v.len() == 0 {
            Self::load_fallback_data()
        } else {
            LabeledCorpus { records: v }
        }
    }

    /// The number of records.
    pub fn get_dataset_size(&self) -> (r: usize)
        ensures
            r == self@.len(),
    {
        self.records.len()
    }
}

} // verus!
