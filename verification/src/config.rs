//! The donation configuration the gauge is drawn from.
//!
//! Money is carried in whole cents, so the two-decimal amounts the drawing
//! shows are exact values of the fields here, not float approximations.
//! The core never mutates a configuration and never validates the sign or
//! size of a team's total: negative or outsized amounts flow through into
//! the sum and the displayed text unchanged.

use vstd::prelude::*;

verus! {

/// One contributing team.
#[derive(Debug)]
pub struct Team {
    pub name: String,
    pub image_url: Option<String>,
    pub total_raised_cents: i64,
}

/// A snapshot of the donation drive: the goal, the teams, and bookkeeping
/// text owned by the surrounding application.
#[derive(Debug)]
pub struct ThermometerConfig {
    pub organization_name: String,
    pub title: String,
    pub goal_cents: i64,
    pub teams: Vec<Team>,
    pub last_updated: String,
}

/// The amounts of the teams, in configuration order.
pub open spec fn spec_team_amounts(teams: Seq<Team>) -> Seq<i64> {
    teams.map_values(|t: Team| t.total_raised_cents)
}

/// Collects each team's total into a plain list of amounts.
pub fn team_amounts(teams: &Vec<Team>) -> (amounts: Vec<i64>)
    ensures
        amounts@ == spec_team_amounts(teams@),
{
    let mut amounts: Vec<i64> = Vec::new();
    let mut i: usize = 0;
    while i < teams.len()
        invariant
            i <= teams.len(),
            amounts@ == spec_team_amounts(teams@).take(i as int),
        decreases teams.len() - i,
    {
        amounts.push(teams[i].total_raised_cents);
        proof {
            assert(amounts@ =~= spec_team_amounts(teams@).take(i as int + 1));
        }
        i = i + 1;
    }
    proof {
        assert(spec_team_amounts(teams@).take(teams@.len() as int) =~= spec_team_amounts(teams@));
    }
    amounts
}

} // verus!
