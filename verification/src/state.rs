//! The snapshot that the tabbed front end shows: an overview, the bill of
//! materials, a settings summary and the notes of the advanced tab. It is
//! assembled once and only read afterwards.

use crate::bom::{
    all_well_formed, bom_or_demo, demo_bom, demo_bom_items, lemma_bom_or_demo_is_well_formed,
    load_bom_from_csv, loaded_bom, source_bytes, BomItem, BomItemView,
};
use vstd::prelude::*;

verus! {

/// Title, status line and key figures of the overview.
#[derive(Debug, Clone)]
pub struct OverviewSummary {
    pub title: String,
    pub status: String,
    pub key_metrics: Vec<String>,
}

/// Whether the estimating profile is configured, and a description.
#[derive(Debug, Clone)]
pub struct SettingsSummary {
    pub configured: bool,
    pub description: String,
}

/// The notes of the advanced tab.
#[derive(Debug, Clone)]
pub struct AdvancedSummary {
    pub notes: String,
}

/// Everything the front end shows, in one value that owns all of it.
#[derive(Debug, Clone)]
pub struct AppState {
    pub overview: OverviewSummary,
    pub bom: Vec<BomItem>,
    pub settings: SettingsSummary,
    pub advanced: AdvancedSummary,
}

/// What an `OverviewSummary` holds, as plain values.
pub struct OverviewSummaryView {
    pub title: Seq<char>,
    pub status: Seq<char>,
    pub key_metrics: Seq<Seq<char>>,
}

/// What a `SettingsSummary` holds, as plain values.
pub struct SettingsSummaryView {
    pub configured: bool,
    pub description: Seq<char>,
}

/// What an `AdvancedSummary` holds, as plain values.
pub struct AdvancedSummaryView {
    pub notes: Seq<char>,
}

/// What an `AppState` holds, as plain values.
pub struct AppStateView {
    pub overview: OverviewSummaryView,
    pub bom: Seq<BomItemView>,
    pub settings: SettingsSummaryView,
    pub advanced: AdvancedSummaryView,
}

impl View for OverviewSummary {
    type V = OverviewSummaryView;

    open spec fn view(&self) -> OverviewSummaryView {
        OverviewSummaryView {
            title: self.title@,
            status: self.status@,
            key_metrics: self.key_metrics.deep_view(),
        }
    }
}

impl View for SettingsSummary {
    type V = SettingsSummaryView;

    open spec fn view(&self) -> SettingsSummaryView {
        SettingsSummaryView { configured: self.configured, description: self.description@ }
    }
}

impl View for AdvancedSummary {
    type V = AdvancedSummaryView;

    open spec fn view(&self) -> AdvancedSummaryView {
        AdvancedSummaryView { notes: self.notes@ }
    }
}

impl View for AppState {
    type V = AppStateView;

    open spec fn view(&self) -> AppStateView {
        AppStateView {
            overview: self.overview@,
            bom: self.bom.deep_view(),
            settings: self.settings@,
            advanced: self.advanced@,
        }
    }
}

/// The status line of a settings summary.
pub open spec fn settings_status(configured: bool) -> Seq<char> {
    if configured {
        "Profile: configured"@
    } else {
        "Profile: not configured yet"@
    }
}

impl SettingsSummary {
    /// The status line that the settings tab shows.
    pub fn status_text(&self) -> (text: &'static str)
        ensures
            text@ == settings_status(self.configured),
    {
        if self.configured {
            "Profile: configured"
        } else {
            "Profile: not configured yet"
        }
    }
}

/// The overview of every snapshot.
pub open spec fn demo_overview() -> OverviewSummaryView {
    OverviewSummaryView {
        title: "Service overview"@,
        status: "All systems nominal"@,
        key_metrics: seq!["Latency: 120ms avg"@, "Error rate: 0.2%"@, "Active users: 1,245"@],
    }
}

/// The settings summary of every snapshot.
pub open spec fn demo_settings() -> SettingsSummaryView {
    SettingsSummaryView {
        configured: true,
        description: "Core credentials and thresholds are configured. Details are kept in the backend layer."@,
    }
}

/// The advanced notes of every snapshot.
pub open spec fn demo_advanced() -> AdvancedSummaryView {
    AdvancedSummaryView {
        notes: "Space for diagnostic tools, import/export utilities, or one-off power features."@,
    }
}

/// The snapshot around a given bill of materials.
pub open spec fn demo_state(bom: Seq<BomItemView>) -> AppStateView {
    AppStateView {
        overview: demo_overview(),
        bom,
        settings: demo_settings(),
        advanced: demo_advanced(),
    }
}

impl AppState {
    /// Whether this is the snapshot that is assembled from `source`, the
    /// bytes read at the path of the bill of materials, or `None` where
    /// nothing could be read there.
    pub open spec fn is_assembled_from(&self, source: Option<Seq<u8>>) -> bool {
        self@ == demo_state(bom_or_demo(source))
    }

    /// Whether every line item of the snapshot is well formed.
    pub open spec fn well_formed(&self) -> bool {
        all_well_formed(self@.bom)
    }

    /// Assembles the snapshot. `bom_source` is what was read at the path of
    /// the bill of materials: delimited text with a header and the columns
    /// name, quantity, unit cost, total cost, lead time in days and minimum
    /// order quantity; `None` where nothing could be read there.
    ///
    /// Always succeeds: where the bill of materials cannot be loaded, the
    /// fixed one takes its place.
    pub fn demo_with_bom_path(bom_source: Option<&[u8]>) -> (state: AppState)
        ensures
            state.is_assembled_from(source_bytes(bom_source)),
            state.well_formed(),
    {
        let mut key_metrics: Vec<String> = Vec::new();
        key_metrics.push("Latency: 120ms avg".to_string());
        key_metrics.push("Error rate: 0.2%".to_string());
        key_metrics.push("Active users: 1,245".to_string());
        let overview = OverviewSummary {
            title: "Service overview".to_string(),
            status: "All systems nominal".to_string(),
            key_metrics,
        };
        let settings = SettingsSummary {
            configured: true,
            description: "Core credentials and thresholds are configured. Details are kept in the backend layer.".to_string(),
        };
        let advanced = AdvancedSummary {
            notes: "Space for diagnostic tools, import/export utilities, or one-off power features.".to_string(),
        };
        let bom = match load_bom_from_csv(bom_source) {
            Ok(items) => items,
            Err(_) => demo_bom(),
        };
        assert(overview@.key_metrics =~= demo_overview().key_metrics);
        AppState { overview, bom, settings, advanced }
    }

    /// The overview.
    pub fn overview(&self) -> (overview: &OverviewSummary)
        ensures
            *overview == self.overview,
    {
        &self.overview
    }

    /// The line items of the bill of materials, in their order.
    pub fn bom(&self) -> (bom: &[BomItem])
        ensures
            bom@ == self.bom@,
    {
        self.bom.as_slice()
    }

    /// The settings summary.
    pub fn settings(&self) -> (settings: &SettingsSummary)
        ensures
            *settings == self.settings,
    {
        &self.settings
    }

    /// The notes of the advanced tab.
    pub fn advanced(&self) -> (advanced: &AdvancedSummary)
        ensures
            *advanced == self.advanced,
    {
        &self.advanced
    }
}

/// Without a source, as when there is no file at the path, the snapshot
/// shows exactly the fixed bill of materials: its three items with all their
/// fields, in their order.
pub proof fn lemma_missing_source_shows_demo_bom(state: AppState)
    requires
        state.is_assembled_from(None),
    ensures
        state@.bom == demo_bom_items(),
        state@.bom.len() == 3,
{
}

/// The snapshot shows the line items of a source that loads, and the fixed
/// bill of materials for every other source. The rest of it is the same for
/// all sources.
pub proof fn lemma_snapshot_shows_loaded_or_demo_bom(source: Option<Seq<u8>>, state: AppState)
    requires
        state.is_assembled_from(source),
    ensures
        match loaded_bom(source) {
            Ok(items) => state@.bom == items,
            Err(_) => state@.bom == demo_bom_items(),
        },
        state@.overview == demo_overview(),
        state@.settings == demo_settings(),
        state@.advanced == demo_advanced(),
{
}

/// Every line item of a snapshot is well formed.
pub proof fn lemma_snapshot_is_well_formed(source: Option<Seq<u8>>, state: AppState)
    requires
        state.is_assembled_from(source),
    ensures
        state.well_formed(),
{
    lemma_bom_or_demo_is_well_formed(source);
}

/// Assembling is a function of the source: two snapshots assembled from the
/// same source agree in every field, the order of the line items included.
pub proof fn lemma_assembly_is_deterministic(
    source: Option<Seq<u8>>,
    first: AppState,
    second: AppState,
)
    requires
        first.is_assembled_from(source),
        second.is_assembled_from(source),
    ensures
        first@ == second@,
{
}

} // verus!
