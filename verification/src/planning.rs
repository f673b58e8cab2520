//! Order planning: for each material, how many units to order at least and
//! how many days ahead.

use crate::bom::{demo_bom_items, BomItemView};
use crate::count::{decimal_of, u32_text};
use vstd::prelude::*;

verus! {

/// The planning figures of one material.
#[derive(Debug, Clone, Copy)]
pub struct MaterialRow {
    pub name: &'static str,
    pub lead_time_days: u32,
    pub min_quantity: u32,
}

/// What a `MaterialRow` holds, as plain values.
pub struct MaterialRowView {
    pub name: Seq<char>,
    pub lead_time_days: u32,
    pub min_quantity: u32,
}

impl View for MaterialRow {
    type V = MaterialRowView;

    open spec fn view(&self) -> MaterialRowView {
        MaterialRowView {
            name: self.name@,
            lead_time_days: self.lead_time_days,
            min_quantity: self.min_quantity,
        }
    }
}

impl DeepView for MaterialRow {
    type V = MaterialRowView;

    open spec fn deep_view(&self) -> MaterialRowView {
        self@
    }
}

/// The advice on ordering a material: how many units at least, and how many
/// days before installation.
pub open spec fn order_advice_text(row: MaterialRowView) -> Seq<char> {
    "Order at least "@ + decimal_of(row.min_quantity as nat) + " units approximately "@
        + decimal_of(row.lead_time_days as nat) + " days before installation."@
}

impl MaterialRow {
    /// The advice on ordering this material.
    pub fn order_advice(&self) -> (advice: String)
        ensures
            advice@ == order_advice_text(self@),
    {
        let mut advice = "Order at least ".to_string();
        advice.append(u32_text(self.min_quantity).as_str());
        advice.append(" units approximately ");
        advice.append(u32_text(self.lead_time_days).as_str());
        advice.append(" days before installation.");
        advice
    }
}

/// The planning figures of a line item of a bill of materials.
pub open spec fn planning_row(item: BomItemView) -> MaterialRowView {
    MaterialRowView {
        name: item.name,
        lead_time_days: item.lead_time_days,
        min_quantity: item.min_quantity,
    }
}

/// The fixed planning rows: three materials, in this order.
pub open spec fn demo_material_rows() -> Seq<MaterialRowView> {
    seq![
        MaterialRowView { name: "Steel frame sections"@, lead_time_days: 21, min_quantity: 50 },
        MaterialRowView { name: "Electrical fixtures"@, lead_time_days: 14, min_quantity: 40 },
        MaterialRowView { name: "Finishing materials"@, lead_time_days: 10, min_quantity: 100 },
    ]
}

/// The fixed planning rows.
pub fn demo_materials() -> (rows: Vec<MaterialRow>)
    ensures
        rows.deep_view() == demo_material_rows(),
{
    let mut rows: Vec<MaterialRow> = Vec::new();
    rows.push(MaterialRow { name: "Steel frame sections", lead_time_days: 21, min_quantity: 50 });
    rows.push(MaterialRow { name: "Electrical fixtures", lead_time_days: 14, min_quantity: 40 });
    rows.push(MaterialRow { name: "Finishing materials", lead_time_days: 10, min_quantity: 100 });
    assert(rows.deep_view() =~= demo_material_rows());
    rows
}

/// The fixed planning rows are the planning figures of the fixed bill of
/// materials, item by item.
pub proof fn lemma_demo_materials_follow_demo_bom()
    ensures
        demo_material_rows() == demo_bom_items().map_values(|item: BomItemView| planning_row(item)),
{
    assert(demo_material_rows() =~= demo_bom_items().map_values(
        |item: BomItemView| planning_row(item),
    ));
}

} // verus!
