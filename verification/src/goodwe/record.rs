//! Charging sessions as the log tells of them.
use vstd::prelude::*;

use crate::json::{Json, JsonModel, JsonNumber, NumberModel};
use crate::text;

verus! {

/// The numeral of the quantity that a JSON value stands for: a number's own, or a
/// text without the white space around it. Any other value stands for zero.
pub open spec fn numeral_of(v: JsonModel) -> Seq<char> {
    match v {
        JsonModel::Number(NumberModel::PosInt(n)) => text::decimal(n as nat),
        JsonModel::Number(NumberModel::NegInt(n)) => text::signed_decimal(n as int),
        JsonModel::Number(NumberModel::Float(t)) => t,
        JsonModel::Text(t) => text::trimmed(t),
        _ => seq!['0'],
    }
}

/// The numeral of the quantity that a JSON value stands for.
pub fn json_f64(v: &Json) -> (t: String)
    ensures
        t@ == numeral_of(v@),
{
    match v {
        Json::Number(JsonNumber::PosInt(n)) => text::decimal_text(*n),
        Json::Number(JsonNumber::NegInt(n)) => {
            let mut t = String::new();
            text::push_signed(&mut t, *n);
            assert(t@ =~= text::signed_decimal(*n as int));
            t
        },
        Json::Number(JsonNumber::Float(t)) => t.clone(),
        Json::Text(t) => t.as_str().trim().to_owned(),
        _ => {
            proof {
                reveal_strlit("0");
            }
            assert("0"@ =~= seq!['0']);
            "0".to_owned()
        },
    }
}

/// A charging session. A quantity is a `Q`: the numeral that the portal gave, or
/// what was made of it.
#[derive(Debug)]
pub struct Record<Q> {
    pub session: usize,
    pub start: String,
    pub end: String,
    pub duration_min: u64,
    pub total_kwh: Q,
    pub green_kwh: Q,
    pub import_kwh: Q,
    pub range_km: Q,
    pub end_cause: String,
}

/// What a charging session is, its quantities as numerals.
pub struct RecordModel {
    pub session: int,
    pub start: Seq<char>,
    pub end: Seq<char>,
    pub duration_min: u64,
    pub total_kwh: Seq<char>,
    pub green_kwh: Seq<char>,
    pub import_kwh: Seq<char>,
    pub range_km: Seq<char>,
    pub end_cause: Seq<char>,
}

impl View for Record<String> {
    type V = RecordModel;

    open spec fn view(&self) -> RecordModel {
        RecordModel {
            session: self.session as int,
            start: self.start@,
            end: self.end@,
            duration_min: self.duration_min,
            total_kwh: self.total_kwh@,
            green_kwh: self.green_kwh@,
            import_kwh: self.import_kwh@,
            range_km: self.range_km@,
            end_cause: self.end_cause@,
        }
    }
}

/// The charging session that an entry of the log tells of.
pub open spec fn record_of(session: int, entry: JsonModel) -> RecordModel {
    RecordModel {
        session,
        start: entry.field("chargeStartTime"@).text_or(""@),
        end: entry.field("chargeEndTime"@).text_or(""@),
        duration_min: entry.field("chargeTimeLength"@).unsigned_or_zero(),
        total_kwh: numeral_of(entry.field("currentChargeQuantity"@)),
        green_kwh: numeral_of(entry.field("greenElec"@)),
        import_kwh: numeral_of(entry.field("purElec"@)),
        range_km: numeral_of(entry.field("mileage"@)),
        end_cause: entry.field("chargeEndCause"@).text_or(""@),
    }
}

/// The charging session that an entry of the log tells of.
pub fn read_record(session: usize, entry: &Json) -> (record: Record<String>)
    ensures
        record@ == record_of(session as int, entry@),
        record.total_kwh@ == numeral_of(entry@.field("currentChargeQuantity"@)),
        record.green_kwh@ == numeral_of(entry@.field("greenElec"@)),
        record.import_kwh@ == numeral_of(entry@.field("purElec"@)),
        record.range_km@ == numeral_of(entry@.field("mileage"@)),
        record.session == session,
        record.start@ == entry@.field("chargeStartTime"@).text_or(""@),
        record.end@ == entry@.field("chargeEndTime"@).text_or(""@),
        record.duration_min == entry@.field("chargeTimeLength"@).unsigned_or_zero(),
        record.end_cause@ == entry@.field("chargeEndCause"@).text_or(""@),
{
    Record {
        session,
        start: entry.field("chargeStartTime").text_or("").to_owned(),
        end: entry.field("chargeEndTime").text_or("").to_owned(),
        duration_min: entry.field("chargeTimeLength").unsigned_or_zero(),
        total_kwh: json_f64(entry.field("currentChargeQuantity")),
        green_kwh: json_f64(entry.field("greenElec")),
        import_kwh: json_f64(entry.field("purElec")),
        range_km: json_f64(entry.field("mileage")),
        end_cause: entry.field("chargeEndCause").text_or("").to_owned(),
    }
}

/// The models of the records, one by one.
pub open spec fn record_models(records: Seq<Record<String>>) -> Seq<RecordModel> {
    records.map_values(|r: Record<String>| r@)
}

/// The charging sessions of a page, numbered on from the `before` that came first.
pub open spec fn numbered(before: int, entries: Seq<JsonModel>) -> Seq<RecordModel> {
    Seq::new(entries.len(), |i: int| record_of(before + i + 1, entries[i]))
}

/// The numeral of an integer reads back as that integer, and a float keeps the numeral
/// that it came with.
pub proof fn numbers_keep_their_value(n: u64, m: i64, t: Seq<char>)
    ensures
        text::integer_value(numeral_of(JsonModel::Number(NumberModel::PosInt(n)))) == Some(
            n as int,
        ),
        text::integer_value(numeral_of(JsonModel::Number(NumberModel::NegInt(m)))) == Some(
            m as int,
        ),
        numeral_of(JsonModel::Number(NumberModel::Float(t))) == t,
{
    text::signed_decimal_reads_back(n as int);
    text::signed_decimal_reads_back(m as int);
}

/// A quantity that comes as a text loses the white space at its ends and nothing else,
/// so a numeral reads the same with white space around it as without.
pub proof fn quantity_texts_are_trimmed(t: Seq<char>) -> (ends: (int, int))
    ensures
        0 <= ends.0 <= ends.1 <= t.len(),
        numeral_of(JsonModel::Text(t)) == t.subrange(ends.0, ends.1),
        forall|k: int|
            0 <= k < ends.0 || ends.1 <= k < t.len() ==> text::is_white_space(#[trigger] t[k]),
        ends.0 < ends.1 ==> !text::is_white_space(t[ends.0]) && !text::is_white_space(
            t[ends.1 - 1],
        ),
{
    text::trimming_takes_white_space(t)
}

/// An integer is the same quantity as a number and as the text of that number.
pub proof fn quantity_text_and_number_agree(n: u64, m: i64)
    ensures
        numeral_of(JsonModel::Text(text::signed_decimal(m as int))) == numeral_of(
            JsonModel::Number(NumberModel::NegInt(m)),
        ),
        numeral_of(JsonModel::Text(text::decimal(n as nat))) == numeral_of(
            JsonModel::Number(NumberModel::PosInt(n)),
        ),
{
    let t = text::decimal(n as nat);
    text::lemma_decimal_value(n as nat);
    let ends = text::trimming_takes_white_space(t);
    assert(text::is_digit(t[0]) && text::is_digit(t[t.len() - 1]));
    assert(t.subrange(ends.0, ends.1) =~= t);
    let s = text::signed_decimal(m as int);
    text::signed_decimal_reads_back(m as int);
    text::sign_stands_in_front(m as int);
    let outer = text::trimming_takes_white_space(s);
    assert(text::is_digit(s[0]) || s[0] == '-');
    assert(text::is_digit(s[s.len() - 1])) by {
        if m < 0 {
            assert(s.skip(1)[s.len() - 2] == s[s.len() - 1]);
        }
    }
    assert(s.subrange(outer.0, outer.1) =~= s);
}

/// A value that is neither a number nor a text is no quantity, which counts as zero.
pub proof fn other_quantities_are_zero(v: JsonModel)
    requires
        !(v is Number),
        !(v is Text),
    ensures
        text::integer_value(numeral_of(v)) == Some(0int),
        numeral_of(v).len() == 1,
{
    text::signed_decimal_reads_back(0);
    text::decimal_has_no_leading_zero(0);
}

proof fn lemma_entry_keys_differ()
    ensures
        "chargeStartTime"@.len() == 15,
        "chargeEndTime"@.len() == 13,
        "chargeTimeLength"@.len() == 16,
        "currentChargeQuantity"@.len() == 21,
        "greenElec"@.len() == 9,
        "purElec"@.len() == 7,
        "mileage"@.len() == 7,
        "purElec"@ != "mileage"@,
        "chargeEndCause"@.len() == 14,
        ""@ == Seq::<char>::empty(),
{
    reveal_strlit("chargeStartTime");
    reveal_strlit("chargeEndTime");
    reveal_strlit("chargeTimeLength");
    reveal_strlit("currentChargeQuantity");
    reveal_strlit("greenElec");
    reveal_strlit("purElec");
    reveal_strlit("mileage");
    reveal_strlit("chargeEndCause");
    reveal_strlit("");
    assert("purElec"@[0] == 'p' && "mileage"@[0] == 'm');
    assert(""@ =~= Seq::<char>::empty());
}

/// The four quantities of a record are read alike, each from its own field: setting
/// that field to a value makes the quantity the numeral of that value and changes
/// nothing else of the record.
pub proof fn quantities_are_read_alike(
    session: int,
    fields: Map<Seq<char>, JsonModel>,
    v: JsonModel,
)
    ensures
        record_of(session, JsonModel::Object(fields.insert("currentChargeQuantity"@, v))) == (
        RecordModel {
            total_kwh: numeral_of(v),
            ..record_of(session, JsonModel::Object(fields))
        }),
        record_of(session, JsonModel::Object(fields.insert("greenElec"@, v))) == (RecordModel {
            green_kwh: numeral_of(v),
            ..record_of(session, JsonModel::Object(fields))
        }),
        record_of(session, JsonModel::Object(fields.insert("purElec"@, v))) == (RecordModel {
            import_kwh: numeral_of(v),
            ..record_of(session, JsonModel::Object(fields))
        }),
        record_of(session, JsonModel::Object(fields.insert("mileage"@, v))) == (RecordModel {
            range_km: numeral_of(v),
            ..record_of(session, JsonModel::Object(fields))
        }),
{
    lemma_entry_keys_differ();
}

/// The texts and the duration of a record are read each from its own field: setting that
/// field to a text, or to an integer for the duration, makes the record hold it and
/// changes nothing else of the record.
pub proof fn times_and_cause_are_read_as_they_are(
    session: int,
    fields: Map<Seq<char>, JsonModel>,
    t: Seq<char>,
    n: u64,
)
    ensures
        record_of(
            session,
            JsonModel::Object(fields.insert("chargeStartTime"@, JsonModel::Text(t))),
        ) == (RecordModel { start: t, ..record_of(session, JsonModel::Object(fields)) }),
        record_of(
            session,
            JsonModel::Object(fields.insert("chargeEndTime"@, JsonModel::Text(t))),
        ) == (RecordModel { end: t, ..record_of(session, JsonModel::Object(fields)) }),
        record_of(
            session,
            JsonModel::Object(fields.insert("chargeEndCause"@, JsonModel::Text(t))),
        ) == (RecordModel { end_cause: t, ..record_of(session, JsonModel::Object(fields)) }),
        record_of(
            session,
            JsonModel::Object(
                fields.insert("chargeTimeLength"@, JsonModel::Number(NumberModel::PosInt(n))),
            ),
        ) == (RecordModel { duration_min: n, ..record_of(session, JsonModel::Object(fields)) }),
{
    lemma_entry_keys_differ();
}

/// A time or cause that is no text is empty, and a duration that is no number is zero,
/// with nothing else of the record changed.
pub proof fn unreadable_fields_are_empty(
    session: int,
    fields: Map<Seq<char>, JsonModel>,
    v: JsonModel,
)
    ensures
        !(v is Text) ==> {
            &&& record_of(session, JsonModel::Object(fields.insert("chargeStartTime"@, v))) == (
            RecordModel {
                start: Seq::empty(),
                ..record_of(session, JsonModel::Object(fields))
            })
            &&& record_of(session, JsonModel::Object(fields.insert("chargeEndTime"@, v))) == (
            RecordModel { end: Seq::empty(), ..record_of(session, JsonModel::Object(fields)) })
            &&& record_of(session, JsonModel::Object(fields.insert("chargeEndCause"@, v))) == (
            RecordModel {
                end_cause: Seq::empty(),
                ..record_of(session, JsonModel::Object(fields))
            })
        },
        !(v is Number) ==> record_of(
            session,
            JsonModel::Object(fields.insert("chargeTimeLength"@, v)),
        ) == (RecordModel { duration_min: 0, ..record_of(session, JsonModel::Object(fields)) }),
        v matches JsonModel::Number(n) ==> record_of(
            session,
            JsonModel::Object(fields.insert("chargeTimeLength"@, v)),
        ).duration_min == (match n {
            NumberModel::PosInt(k) => k,
            NumberModel::NegInt(k) => if k > 0 { k as u64 } else { 0 },
            NumberModel::Float(_) => 0,
        }),
{
    lemma_entry_keys_differ();
}

/// A field that is null counts as one that is not there.
pub proof fn null_fields_count_as_missing(
    session: int,
    fields: Map<Seq<char>, JsonModel>,
    key: Seq<char>,
)
    ensures
        record_of(session, JsonModel::Object(fields.insert(key, JsonModel::Null))) == record_of(
            session,
            JsonModel::Object(fields.remove(key)),
        ),
{
    lemma_entry_keys_differ();
}

/// A record tells nothing of an entry's other fields, and takes its session number from
/// the place of the entry alone.
pub proof fn records_hold_nothing_else(
    session: int,
    other: int,
    entry: JsonModel,
    fields: Map<Seq<char>, JsonModel>,
    key: Seq<char>,
    v: JsonModel,
)
    requires
        key != "chargeStartTime"@,
        key != "chargeEndTime"@,
        key != "chargeTimeLength"@,
        key != "currentChargeQuantity"@,
        key != "greenElec"@,
        key != "purElec"@,
        key != "mileage"@,
        key != "chargeEndCause"@,
    ensures
        record_of(session, JsonModel::Object(fields.insert(key, v))) == record_of(
            session,
            JsonModel::Object(fields),
        ),
        record_of(session, entry) == (RecordModel { session, ..record_of(other, entry) }),
        !(entry is Object) ==> record_of(session, entry) == record_of(
            session,
            JsonModel::Object(Map::empty()),
        ),
{
    lemma_entry_keys_differ();
}

/// An entry makes one record, numbered after those before it.
pub proof fn entry_makes_one_record(before: int, entry: JsonModel)
    ensures
        numbered(before, seq![entry]).len() == 1,
        numbered(before, seq![entry])[0] == record_of(before + 1, entry),
        numbered(before, Seq::empty()).len() == 0,
{
}

/// Records are numbered on from page to page: two pages one after the other make the
/// records that they would make as one page.
pub proof fn numbering_goes_on(before: int, a: Seq<JsonModel>, b: Seq<JsonModel>)
    ensures
        numbered(before, a + b) == numbered(before, a) + numbered(before + a.len(), b),
{
    assert(numbered(before, a + b) =~= numbered(before, a) + numbered(before + a.len(), b));
}

/// A record is seen as what it holds, each thing under its own name, and a row of
/// records as its records one by one.
pub proof fn records_are_seen_as_they_are(records: Seq<Record<String>>, i: int)
    requires
        0 <= i < records.len(),
    ensures
        record_models(records).len() == records.len(),
        ({
            let seen = record_models(records)[i];
            &&& seen.session == records[i].session
            &&& seen.start == records[i].start@
            &&& seen.end == records[i].end@
            &&& seen.duration_min == records[i].duration_min
            &&& seen.total_kwh == records[i].total_kwh@
            &&& seen.green_kwh == records[i].green_kwh@
            &&& seen.import_kwh == records[i].import_kwh@
            &&& seen.range_km == records[i].range_km@
            &&& seen.end_cause == records[i].end_cause@
        }),
{
}

} // verus!
