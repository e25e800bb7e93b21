//! The whole report: the sheet of the races, one sheet for each race,
//! and one sheet for each player.
use vstd::prelude::*;
use crate::error::Error;
use crate::model::TournamentStatsModel;
use crate::pair::PairStatsBuilder;
use crate::pair_sheet::{pair_sheet_name, pair_sheet_steps};
use crate::player_sheet::{build_player_stats, player_sheets, players_refusal};
use crate::race::{race_sheets, RaceStatsBuilder};
use crate::sheet::{SheetView, Workbook};

verus! {

/// The sheets of the report of a model, in their order.
pub open spec fn report_sheets(model: TournamentStatsModel) -> Seq<SheetView> {
    seq![
        SheetView { name: pair_sheet_name(), ops: pair_sheet_steps(model.games@, model.races@) },
    ] + race_sheets(
        model.games@,
        model.races@,
        model.heroes@,
        model.tournament->0.with_bargains,
    ) + player_sheets(model, model.users@.len() as int)
}

/// Whether `outcome` is what building the report of `model` gives: the
/// sheets of the report, or the reason why there is none.
pub open spec fn is_report(model: TournamentStatsModel, outcome: Result<Seq<SheetView>, Error>) -> bool {
    match outcome {
        Ok(sheets) => players_refusal(model) is None && sheets == report_sheets(model),
        Err(e) => players_refusal(model) == Some(e),
    }
}

/// The outcome of building a report as a mathematical value.
pub open spec fn outcome_view(res: Result<Workbook, Error>) -> Result<Seq<SheetView>, Error> {
    match res {
        Ok(workbook) => Ok(workbook@),
        Err(e) => Err(e),
    }
}

/// Builds the report of a model: the sheet of the races, the sheets of
/// the races of the list, and the sheets of the players. There is no
/// report of a model without tournament, of a model that is refused, and
/// of a model with a history beyond the limit.
pub fn build_report(model: &TournamentStatsModel) -> (res: Result<Workbook, Error>)
    ensures
        is_report(*model, outcome_view(res)),
{
    if model.tournament.is_none() {
        return Err(Error::NoTournament);
    }
    let mut workbook = Workbook::new();
    let mut pair_stats_builder = PairStatsBuilder::new();
    let mut race_stats_builder = RaceStatsBuilder::new();
    match pair_stats_builder.build(model, &mut workbook) {
        Ok(()) => {},
        Err(e) => {
            return Err(e);
        },
    }
    match race_stats_builder.build(model, &mut workbook) {
        Ok(()) => {},
        Err(e) => {
            return Err(e);
        },
    }
    match build_player_stats(model, &mut workbook) {
        Ok(()) => {},
        Err(e) => {
            return Err(e);
        },
    }
    assert(workbook@ =~= report_sheets(*model));
    Ok(workbook)
}

/// Building the report of one model twice gives the same outcome: two
/// outcomes of the same model are the same sheets, cell by cell, or the
/// same refusal.
pub proof fn lemma_report_repeats(
    model: TournamentStatsModel,
    first: Result<Seq<SheetView>, Error>,
    second: Result<Seq<SheetView>, Error>,
)
    requires
        is_report(model, first),
        is_report(model, second),
    ensures
        first == second,
{
}

} // verus!
