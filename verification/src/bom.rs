//! The bill of materials: its line items, how they are read from the records
//! of a delimited text, and the fixed list that stands in when none can be
//! read.

use crate::cost::{
    is_real_numeral, lemma_plain_decimal_is_a_numeral, lemma_zero_is_a_numeral,
    real_numeral_or_zero, real_numeral_or_zero_text,
};
use crate::count::{parse_u32_or_zero, parsed_u32_or_zero};
use crate::reader::{csv_records, read_records};
use vstd::prelude::*;

verus! {

/// One purchasable line item.
///
/// The three counts are held as numbers. The two costs are real numbers and
/// are held as the numerals that denote them, as they were written. Nothing
/// relates the total cost to the quantity and the unit cost.
#[derive(Debug, Clone)]
pub struct BomItem {
    pub name: String,
    pub quantity: u32,
    pub unit_cost: String,
    pub total_cost: String,
    pub lead_time_days: u32,
    pub min_quantity: u32,
}

/// What a `BomItem` holds, as plain values.
pub struct BomItemView {
    pub name: Seq<char>,
    pub quantity: u32,
    pub unit_cost: Seq<char>,
    pub total_cost: Seq<char>,
    pub lead_time_days: u32,
    pub min_quantity: u32,
}

impl View for BomItem {
    type V = BomItemView;

    open spec fn view(&self) -> BomItemView {
        BomItemView {
            name: self.name@,
            quantity: self.quantity,
            unit_cost: self.unit_cost@,
            total_cost: self.total_cost@,
            lead_time_days: self.lead_time_days,
            min_quantity: self.min_quantity,
        }
    }
}

impl DeepView for BomItem {
    type V = BomItemView;

    open spec fn deep_view(&self) -> BomItemView {
        self@
    }
}

impl BomItemView {
    /// Whether both costs are numerals for real numbers.
    pub open spec fn well_formed(self) -> bool {
        is_real_numeral(self.unit_cost) && is_real_numeral(self.total_cost)
    }
}

/// Whether every item of a bill of materials is well formed.
pub open spec fn all_well_formed(items: Seq<BomItemView>) -> bool {
    forall|i: int| 0 <= i < items.len() ==> (#[trigger] items[i]).well_formed()
}

/// Why a bill of materials could not be loaded.
#[derive(Debug, Clone, Copy, PartialEq, Eq, Structural)]
pub enum LoadError {
    /// There was no text to read: the source could not be opened or read.
    Unreadable,
    /// The reader reported an error in the text.
    Malformed,
}

/// The number of columns of a line item, in the order name, quantity, unit
/// cost, total cost, lead time in days, minimum order quantity.
pub const COLUMNS: usize = 6;

/// Whether a record has a field for every column.
pub open spec fn has_all_columns(fields: Seq<Seq<char>>) -> bool {
    fields.len() >= COLUMNS
}

/// The line item that a record with all columns holds. The name is taken as
/// it stands. Each of the other fields is read on its own: a count that is no
/// `u32` numeral is zero, and a cost that is no numeral for a real number is
/// the numeral for zero. Fields beyond the sixth are ignored.
pub open spec fn item_of_record(fields: Seq<Seq<char>>) -> BomItemView
    recommends
        has_all_columns(fields),
{
    BomItemView {
        name: fields[0],
        quantity: parsed_u32_or_zero(fields[1]),
        unit_cost: real_numeral_or_zero(fields[2]),
        total_cost: real_numeral_or_zero(fields[3]),
        lead_time_days: parsed_u32_or_zero(fields[4]),
        min_quantity: parsed_u32_or_zero(fields[5]),
    }
}

/// The line items of a sequence of records: one for each record with all
/// columns, in the order of the records. Shorter records are left out.
pub open spec fn bom_of_records(rows: Seq<Seq<Seq<char>>>) -> Seq<BomItemView> {
    rows.filter(|fields: Seq<Seq<char>>| has_all_columns(fields)).map_values(
        |fields: Seq<Seq<char>>| item_of_record(fields),
    )
}

/// The bill of materials that a source holds; `None` stands for a source that
/// could not be read.
pub open spec fn loaded_bom(source: Option<Seq<u8>>) -> Result<Seq<BomItemView>, LoadError> {
    match source {
        None => Err(LoadError::Unreadable),
        Some(data) => match csv_records(data) {
            None => Err(LoadError::Malformed),
            Some(rows) => Ok(bom_of_records(rows)),
        },
    }
}

/// The bytes of a source, if it has any.
pub open spec fn source_bytes(source: Option<&[u8]>) -> Option<Seq<u8>> {
    match source {
        None => None,
        Some(data) => Some(data@),
    }
}

/// One more record adds its line item at the end, or nothing if it is short.
pub proof fn lemma_bom_of_one_more_record(rows: Seq<Seq<Seq<char>>>, fields: Seq<Seq<char>>)
    ensures
        bom_of_records(rows.push(fields)) == if has_all_columns(fields) {
            bom_of_records(rows).push(item_of_record(fields))
        } else {
            bom_of_records(rows)
        },
{
    reveal(Seq::filter);
    let keep = |fields: Seq<Seq<char>>| has_all_columns(fields);
    assert(rows.push(fields).drop_last() =~= rows);
    if has_all_columns(fields) {
        assert(rows.push(fields).filter(keep) == rows.filter(keep).push(fields));
        assert(bom_of_records(rows.push(fields)) =~= bom_of_records(rows).push(
            item_of_record(fields),
        ));
    }
}

/// Reads the line item of one record, if the record has all columns.
pub fn item_from_record(fields: &Vec<String>) -> (r: Option<BomItem>)
    ensures
        match r {
            Some(item) => has_all_columns(fields.deep_view()) && item@ == item_of_record(
                fields.deep_view(),
            ),
            None => !has_all_columns(fields.deep_view()),
        },
        r matches Some(item) ==> item@.well_formed(),
{
    if fields.len() < COLUMNS {
        return None;
    }
    let item = BomItem {
        name: fields[0].clone(),
        quantity: parse_u32_or_zero(fields[1].as_str()),
        unit_cost: real_numeral_or_zero_text(fields[2].as_str()),
        total_cost: real_numeral_or_zero_text(fields[3].as_str()),
        lead_time_days: parse_u32_or_zero(fields[4].as_str()),
        min_quantity: parse_u32_or_zero(fields[5].as_str()),
    };
    Some(item)
}

/// Reads the line items of a sequence of records.
pub fn bom_from_records(rows: &Vec<Vec<String>>) -> (items: Vec<BomItem>)
    ensures
        items.deep_view() == bom_of_records(rows.deep_view()),
        all_well_formed(items.deep_view()),
{
    proof {
        lemma_items_of_records_are_well_formed(rows.deep_view());
    }
    let mut items: Vec<BomItem> = Vec::new();
    let mut i: usize = 0;
    assert(rows.deep_view().take(0) =~= Seq::empty());
    assert(items.deep_view() =~= bom_of_records(Seq::empty())) by {
        reveal(Seq::filter);
    }
    while i < rows.len()
        invariant
            i <= rows.len(),
            items.deep_view() == bom_of_records(rows.deep_view().take(i as int)),
        decreases rows.len() - i,
    {
        let ghost before = items.deep_view();
        let ghost fields = rows.deep_view()[i as int];
        match item_from_record(&rows[i]) {
            Some(item) => {
                items.push(item);
                assert(items.deep_view() =~= before.push(item_of_record(fields)));
            },
            None => {},
        }
        proof {
            lemma_bom_of_one_more_record(rows.deep_view().take(i as int), fields);
            assert(rows.deep_view().take(i + 1) =~= rows.deep_view().take(i as int).push(fields));
        }
        i += 1;
    }
    assert(rows.deep_view().take(rows.len() as int) =~= rows.deep_view());
    items
}

/// Loads a bill of materials from the delimited text of a source, whose first
/// record is a header. Fails where there is no text or the reader reports an
/// error in it, and never on account of what a record holds.
pub fn load_bom_from_csv(source: Option<&[u8]>) -> (r: Result<Vec<BomItem>, LoadError>)
    ensures
        match r {
            Ok(items) => loaded_bom(source_bytes(source)) == Ok::<_, LoadError>(items.deep_view()),
            Err(error) => loaded_bom(source_bytes(source)) == Err::<Seq<BomItemView>, _>(error),
        },
        r matches Ok(items) ==> all_well_formed(items.deep_view()),
{
    match source {
        None => Err(LoadError::Unreadable),
        Some(data) => match read_records(data) {
            Ok(rows) => Ok(bom_from_records(&rows)),
            Err(_) => Err(LoadError::Malformed),
        },
    }
}

/// The fixed bill of materials that stands in for one that could not be
/// loaded: three line items, in this order.
pub open spec fn demo_bom_items() -> Seq<BomItemView> {
    seq![
        BomItemView {
            name: "Steel frame sections"@,
            quantity: 120,
            unit_cost: "45.50"@,
            total_cost: "5460.0"@,
            lead_time_days: 21,
            min_quantity: 50,
        },
        BomItemView {
            name: "Electrical fixtures"@,
            quantity: 80,
            unit_cost: "32.00"@,
            total_cost: "2560.0"@,
            lead_time_days: 14,
            min_quantity: 40,
        },
        BomItemView {
            name: "Finishing materials"@,
            quantity: 200,
            unit_cost: "12.75"@,
            total_cost: "2550.0"@,
            lead_time_days: 10,
            min_quantity: 100,
        },
    ]
}

/// The fixed bill of materials that stands in for one that could not be
/// loaded.
pub fn demo_bom() -> (items: Vec<BomItem>)
    ensures
        items.deep_view() == demo_bom_items(),
        all_well_formed(items.deep_view()),
{
    proof {
        lemma_demo_bom_is_well_formed();
    }
    let mut items: Vec<BomItem> = Vec::new();
    items.push(
        BomItem {
            name: "Steel frame sections".to_string(),
            quantity: 120,
            unit_cost: "45.50".to_string(),
            total_cost: "5460.0".to_string(),
            lead_time_days: 21,
            min_quantity: 50,
        },
    );
    items.push(
        BomItem {
            name: "Electrical fixtures".to_string(),
            quantity: 80,
            unit_cost: "32.00".to_string(),
            total_cost: "2560.0".to_string(),
            lead_time_days: 14,
            min_quantity: 40,
        },
    );
    items.push(
        BomItem {
            name: "Finishing materials".to_string(),
            quantity: 200,
            unit_cost: "12.75".to_string(),
            total_cost: "2550.0".to_string(),
            lead_time_days: 10,
            min_quantity: 100,
        },
    );
    assert(items.deep_view() =~= demo_bom_items());
    items
}

/// The bill of materials of a source, or the fixed one where it cannot be
/// loaded.
pub open spec fn bom_or_demo(source: Option<Seq<u8>>) -> Seq<BomItemView> {
    match loaded_bom(source) {
        Ok(items) => items,
        Err(_) => demo_bom_items(),
    }
}

/// Every line item read from records is well formed, whatever the records
/// hold.
pub proof fn lemma_items_of_records_are_well_formed(rows: Seq<Seq<Seq<char>>>)
    ensures
        all_well_formed(bom_of_records(rows)),
{
    lemma_zero_is_a_numeral();
}

/// The number of line items read from records is the number of records with
/// all columns: every short record is left out and no other.
pub proof fn lemma_short_records_are_left_out(rows: Seq<Seq<Seq<char>>>)
    ensures
        bom_of_records(rows).len() == rows.filter(
            |fields: Seq<Seq<char>>| has_all_columns(fields),
        ).len(),
        bom_of_records(rows).len() <= rows.len(),
        (forall|i: int| 0 <= i < rows.len() ==> has_all_columns(#[trigger] rows[i]))
            ==> bom_of_records(rows).len() == rows.len(),
        (forall|i: int| 0 <= i < rows.len() ==> !has_all_columns(#[trigger] rows[i]))
            ==> bom_of_records(rows).len() == 0,
    decreases rows.len(),
{
    let keep = |fields: Seq<Seq<char>>| has_all_columns(fields);
    reveal(Seq::filter);
    rows.lemma_filter_len(keep);
    if rows.len() > 0 {
        lemma_short_records_are_left_out(rows.drop_last());
        rows.drop_last().lemma_filter_len(keep);
        assert(forall|i: int|
            0 <= i < rows.drop_last().len() ==> rows.drop_last()[i] == #[trigger] rows[i]);
    }
}

/// Line items keep the order of their records: the items of one run of
/// records followed by another are the items of the first followed by the
/// items of the second.
pub proof fn lemma_items_keep_the_order_of_records(
    first: Seq<Seq<Seq<char>>>,
    second: Seq<Seq<Seq<char>>>,
)
    ensures
        bom_of_records(first + second) == bom_of_records(first) + bom_of_records(second),
{
    let keep = |fields: Seq<Seq<char>>| has_all_columns(fields);
    Seq::filter_distributes_over_add(first, second, keep);
    assert(bom_of_records(first + second) =~= bom_of_records(first) + bom_of_records(second));
}

/// Where every record has all columns, each gives one line item, at its own
/// place.
pub proof fn lemma_full_records_give_one_item_each(rows: Seq<Seq<Seq<char>>>)
    requires
        forall|i: int| 0 <= i < rows.len() ==> has_all_columns(#[trigger] rows[i]),
    ensures
        bom_of_records(rows) == rows.map_values(|fields: Seq<Seq<char>>| item_of_record(fields)),
{
    lemma_full_records_are_all_kept(rows);
}

/// Where every record has all columns, none is left out.
proof fn lemma_full_records_are_all_kept(rows: Seq<Seq<Seq<char>>>)
    requires
        forall|i: int| 0 <= i < rows.len() ==> has_all_columns(#[trigger] rows[i]),
    ensures
        rows.filter(|fields: Seq<Seq<char>>| has_all_columns(fields)) == rows,
    decreases rows.len(),
{
    let keep = |fields: Seq<Seq<char>>| has_all_columns(fields);
    reveal(Seq::filter);
    if rows.len() > 0 {
        let front = rows.drop_last();
        assert(forall|i: int| 0 <= i < front.len() ==> front[i] == #[trigger] rows[i]);
        lemma_full_records_are_all_kept(front);
        assert(front.push(rows.last()) =~= rows);
    }
}

/// Loading fails for want of a source or on an error of the reader, with the
/// error that says which, and on nothing else.
pub proof fn lemma_load_fails_only_on_source_or_reader(source: Option<Seq<u8>>)
    ensures
        source is None <==> loaded_bom(source) == Err::<Seq<BomItemView>, _>(
            LoadError::Unreadable,
        ),
        (source matches Some(data) && csv_records(data) is None) <==> loaded_bom(source) == Err::<
            Seq<BomItemView>,
            _,
        >(LoadError::Malformed),
        (source matches Some(data) && csv_records(data) is Some) <==> loaded_bom(source) is Ok,
{
}

/// The fixed bill of materials is well formed.
pub proof fn lemma_demo_bom_is_well_formed()
    ensures
        all_well_formed(demo_bom_items()),
{
    reveal_strlit("45.50");
    assert("45.50"@ =~= seq!['4', '5'] + seq!['.'] + seq!['5', '0']);
    lemma_plain_decimal_is_a_numeral(seq!['4', '5'], seq!['5', '0']);
    reveal_strlit("5460.0");
    assert("5460.0"@ =~= seq!['5', '4', '6', '0'] + seq!['.'] + seq!['0']);
    lemma_plain_decimal_is_a_numeral(seq!['5', '4', '6', '0'], seq!['0']);
    reveal_strlit("32.00");
    assert("32.00"@ =~= seq!['3', '2'] + seq!['.'] + seq!['0', '0']);
    lemma_plain_decimal_is_a_numeral(seq!['3', '2'], seq!['0', '0']);
    reveal_strlit("2560.0");
    assert("2560.0"@ =~= seq!['2', '5', '6', '0'] + seq!['.'] + seq!['0']);
    lemma_plain_decimal_is_a_numeral(seq!['2', '5', '6', '0'], seq!['0']);
    reveal_strlit("12.75");
    assert("12.75"@ =~= seq!['1', '2'] + seq!['.'] + seq!['7', '5']);
    lemma_plain_decimal_is_a_numeral(seq!['1', '2'], seq!['7', '5']);
    reveal_strlit("2550.0");
    assert("2550.0"@ =~= seq!['2', '5', '5', '0'] + seq!['.'] + seq!['0']);
    lemma_plain_decimal_is_a_numeral(seq!['2', '5', '5', '0'], seq!['0']);
}

/// Whatever the source, the bill of materials that is shown is well formed.
pub proof fn lemma_bom_or_demo_is_well_formed(source: Option<Seq<u8>>)
    ensures
        all_well_formed(bom_or_demo(source)),
{
    lemma_demo_bom_is_well_formed();
    match source {
        Some(data) => match csv_records(data) {
            Some(rows) => lemma_items_of_records_are_well_formed(rows),
            None => {},
        },
        None => {},
    }
}

} // verus!
