use fund_engine::deals::{deal_years, flow_bucket};
use fund_engine::debt::sweep_order;
use fund_engine::tax::effective_depreciation_years;
use fund_engine::grid::grid_cells;
use fund_engine::modes::{solver_action, LBOSolverMode, SolverAction};
use fund_engine::overrides::{override_field, OverrideField};

#[test]
fn entry_year_is_one_past_the_offset() {
    let (entry, exit) = deal_years(3, 4, 10);
    assert_eq!(entry, 4);
    assert_eq!(exit, 8);
}

#[test]
fn hold_period_has_a_floor_of_one_year() {
    let (entry, exit) = deal_years(2, 0, 10);
    assert_eq!(entry, 3);
    assert_eq!(exit, 4);
    let (entry, exit) = deal_years(2, -7, 10);
    assert_eq!(entry, 3);
    assert_eq!(exit, 4);
}

#[test]
fn exit_year_is_capped_at_the_fund_term() {
    let (entry, exit) = deal_years(0, 5, 3);
    assert_eq!(entry, 1);
    assert_eq!(exit, 3);
}

#[test]
fn depreciation_years_have_a_floor_of_one() {
    assert_eq!(effective_depreciation_years(0), 1);
    assert_eq!(effective_depreciation_years(-5), 1);
    assert_eq!(effective_depreciation_years(7), 7);
}

#[test]
fn sweep_follows_ascending_priority() {
    let priorities: Vec<i32> = vec![2, 1, 3];
    let pays_cash: Vec<bool> = vec![true, true, true];
    assert_eq!(sweep_order(&priorities, &pays_cash), vec![1, 0, 2]);
}

#[test]
fn sweep_keeps_tranche_order_on_equal_priority() {
    let priorities: Vec<i32> = vec![1, 1, 0];
    let pays_cash: Vec<bool> = vec![true, true, true];
    assert_eq!(sweep_order(&priorities, &pays_cash), vec![2, 0, 1]);
}

#[test]
fn accruing_tranches_are_not_swept() {
    let priorities: Vec<i32> = vec![5, 1, 1];
    let pays_cash: Vec<bool> = vec![true, false, true];
    assert_eq!(sweep_order(&priorities, &pays_cash), vec![2, 0]);
}

#[test]
fn sweep_of_no_tranches_is_empty() {
    let priorities: Vec<i32> = Vec::new();
    let pays_cash: Vec<bool> = Vec::new();
    assert_eq!(sweep_order(&priorities, &pays_cash), Vec::<usize>::new());
}

#[test]
fn two_modes_get_a_solver_and_the_rest_evaluate_directly() {
    assert_eq!(
        solver_action(&LBOSolverMode::EntryPrice),
        SolverAction::SolveEntryMultiple
    );
    assert_eq!(
        solver_action(&LBOSolverMode::ExitMultiple),
        SolverAction::SolveExitMultiple
    );
    assert_eq!(
        solver_action(&LBOSolverMode::TargetIrr),
        SolverAction::EvaluateDirect
    );
    assert_eq!(solver_action(&LBOSolverMode::Moic), SolverAction::EvaluateDirect);
    assert_eq!(
        solver_action(&LBOSolverMode::OptimalRefinancing),
        SolverAction::EvaluateDirect
    );
}

#[test]
fn every_recognized_override_name_maps_to_its_field() {
    assert_eq!(override_field("entry_multiple"), OverrideField::EntryMultiple);
    assert_eq!(
        override_field("entry_ev_ebitda_multiple"),
        OverrideField::EntryMultiple
    );
    assert_eq!(override_field("exit_multiple"), OverrideField::ExitMultiple);
    assert_eq!(
        override_field("exit_ev_ebitda_multiple"),
        OverrideField::ExitMultiple
    );
    assert_eq!(override_field("leverage"), OverrideField::Leverage);
    assert_eq!(override_field("total_leverage_ratio"), OverrideField::Leverage);
    assert_eq!(override_field("revenue_growth"), OverrideField::RevenueGrowth);
    assert_eq!(
        override_field("revenue_growth_rate"),
        OverrideField::RevenueGrowth
    );
    assert_eq!(override_field("ebitda_margin"), OverrideField::EbitdaMargin);
    assert_eq!(override_field("revenue"), OverrideField::Revenue);
    assert_eq!(override_field("entry_revenue"), OverrideField::Revenue);
}

#[test]
fn unrecognized_override_names_address_no_field() {
    assert_eq!(override_field("discount_rate"), OverrideField::Unknown);
    assert_eq!(override_field(""), OverrideField::Unknown);
    assert_eq!(override_field("Entry_Multiple"), OverrideField::Unknown);
}

#[test]
fn grid_walks_row_major() {
    let cells = grid_cells(2, 3);
    assert_eq!(cells, vec![(0, 0), (0, 1), (0, 2), (1, 0), (1, 1), (1, 2)]);
}

#[test]
fn grid_with_an_empty_range_has_no_cells() {
    assert_eq!(grid_cells(0, 4), Vec::<(usize, usize)>::new());
    assert_eq!(grid_cells(3, 0), Vec::<(usize, usize)>::new());
}

#[test]
fn one_by_one_grid() {
    assert_eq!(grid_cells(1, 1), vec![(0, 0)]);
}

#[test]
fn flows_land_in_their_year_bucket() {
    assert_eq!(flow_bucket(1, 12), Some(1));
    assert_eq!(flow_bucket(11, 12), Some(11));
}

#[test]
fn flows_outside_the_series_are_dropped() {
    assert_eq!(flow_bucket(12, 12), None);
    assert_eq!(flow_bucket(-1, 12), None);
    assert_eq!(flow_bucket(0, 0), None);
}
