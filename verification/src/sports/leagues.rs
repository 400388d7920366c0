//! The leagues to read, and what the table holds of them.

use vstd::prelude::*;
use crate::number::{decimal, decimal_text, signed_decimal, signed_decimal_text};
use crate::text::{same, views};

verus! {

/// A league to read.
#[derive(Debug)]
pub struct LeagueConfigs {
    pub name: String,
    pub slug: String,
}

/// How many games of a league are live.
#[derive(Debug)]
pub struct LiveByLeague {
    pub league: String,
    pub count: i64,
}

/// How many games are live, by league.
#[derive(Debug)]
pub struct LiveLeagueList {
    data: Vec<LiveByLeague>,
}

/// What is to be deleted before leagues are read anew: the statement, and the names that its
/// placeholders stand for, in their order.
#[derive(Debug)]
pub struct ClearPlan {
    pub statement: String,
    pub league_names: Vec<String>,
}

/// The names of the leagues.
pub open spec fn names_of(leagues: Seq<LeagueConfigs>) -> Seq<Seq<char>> {
    leagues.map_values(|league: LeagueConfigs| league.name@)
}

/// The placeholders `$1` to `$count`, with commas between them.
pub open spec fn placeholders(count: nat) -> Seq<char>
    decreases count,
{
    if count == 0 {
        seq![]
    } else if count == 1 {
        "$"@ + decimal(1)
    } else {
        placeholders((count - 1) as nat) + ", "@ + "$"@ + decimal(count)
    }
}

/// How the live games of a league read.
pub open spec fn live_text(item: LiveByLeague) -> Seq<char> {
    "("@ + item.league@ + ", "@ + signed_decimal(item.count as int) + ")"@
}

/// How the live games of a list of leagues read.
pub open spec fn live_list_text(items: Seq<LiveByLeague>) -> Seq<char>
    decreases items.len(),
{
    if items.len() == 0 {
        seq![]
    } else {
        live_list_text(items.drop_last()) + live_text(items.last()) + " "@
    }
}

impl LiveByLeague {
    /// The league and its count, in brackets.
    pub fn to_text(&self) -> (r: String)
        ensures
            r@ == live_text(*self),
    {
        let mut text: String = "(".to_owned();
        text.append(self.league.as_str());
        text.append(", ");
        text.append(signed_decimal_text(self.count).as_str());
        text.append(")");
        text
    }
}

impl LiveLeagueList {
    /// The counts in the list.
    pub closed spec fn items(self) -> Seq<LiveByLeague> {
        self.data@
    }

    /// A list of counts.
    pub fn new(data: Vec<LiveByLeague>) -> (r: Self)
        ensures
            r.items() == data@,
    {
        LiveLeagueList { data }
    }

    /// The counts one after the other, each with a space after it.
    pub fn to_text(&self) -> (r: String)
        ensures
            r@ == live_list_text(self.items()),
    {
        let mut text: String = String::new();
        let mut i: usize = 0;
        while i < self.data.len()
            invariant
                i <= self.data@.len(),
                text@ == live_list_text(self.data@.take(i as int)),
            decreases self.data@.len() - i,
        {
            proof {
                assert(self.data@.take(i + 1).drop_last() =~= self.data@.take(i as int));
            }
            text.append(self.data[i].to_text().as_str());
            text.append(" ");
            i += 1;
        }
        assert(self.data@.take(i as int) =~= self.data@);
        text
    }
}

/// The names of the leagues, in their order.
pub fn league_names(leagues: &Vec<LeagueConfigs>) -> (r: Vec<String>)
    ensures
        views(r@) == names_of(leagues@),
{
    let mut names: Vec<String> = Vec::new();
    let mut i: usize = 0;
    while i < leagues.len()
        invariant
            i <= leagues@.len(),
            names@.len() == i,
            forall|k: int| 0 <= k < i ==> (#[trigger] names@[k])@ == leagues@[k].name@,
        decreases leagues@.len() - i,
    {
        names.push(leagues[i].name.clone());
        i += 1;
    }
    assert(views(names@) =~= names_of(leagues@));
    names
}

/// The placeholders `$1` to `$count`, with commas between them.
fn placeholder_text(count: usize) -> (r: String)
    ensures
        r@ == placeholders(count as nat),
{
    let mut text: String = String::new();
    let mut i: usize = 0;
    while i < count
        invariant
            i <= count,
            text@ == placeholders(i as nat),
        decreases count - i,
    {
        i += 1;
        if i == 1 {
            text = "$".to_owned();
        } else {
            text.append(", ");
            text.append("$");
        }
        text.append(decimal_text(i as u64).as_str());
    }
    text
}

/// What is to be deleted before the leagues are read anew, or nothing where there is no league.
pub fn clear_plan(leagues: &Vec<LeagueConfigs>) -> (r: Option<ClearPlan>)
    ensures
        r is None <==> leagues@.len() == 0,
        r matches Some(plan) ==> {
            &&& plan.statement@ == "DELETE FROM games WHERE league IN ("@ + placeholders(
                leagues@.len(),
            ) + ");"@
            &&& views(plan.league_names@) == names_of(leagues@)
        },
{
    let names = league_names(leagues);
    assert(views(names@).len() == names_of(leagues@).len());
    if names.len() == 0 {
        return None;
    }
    let mut statement: String = "DELETE FROM games WHERE league IN (".to_owned();
    statement.append(placeholder_text(names.len()).as_str());
    statement.append(");");
    Some(ClearPlan { statement, league_names: names })
}

/// Whether a list of names holds a name.
fn has_name(names: &Vec<String>, name: &str) -> (r: bool)
    ensures
        r == views(names@).contains(name@),
{
    let mut i: usize = 0;
    while i < names.len()
        invariant
            i <= names@.len(),
            forall|k: int| 0 <= k < i ==> views(names@)[k] != name@,
        decreases names@.len() - i,
    {
        if same(names[i].as_str(), name) {
            assert(views(names@)[i as int] == name@);
            return true;
        }
        i += 1;
    }
    false
}

/// The leagues to read on demand: those that are named, or all where none is named.
pub open spec fn wanted_leagues(
    leagues: Seq<LeagueConfigs>,
    wanted: Seq<Seq<char>>,
) -> Seq<LeagueConfigs> {
    if wanted.len() == 0 {
        leagues
    } else {
        leagues.filter(|league: LeagueConfigs| wanted.contains(league.name@))
    }
}

/// The leagues to read on demand: those that are named, in the order of the configuration, or
/// all where none is named.
pub fn select_leagues(leagues: Vec<LeagueConfigs>, wanted: &Vec<String>) -> (r: Vec<LeagueConfigs>)
    ensures
        r@ == wanted_leagues(leagues@, views(wanted@)),
{
    if wanted.len() == 0 {
        return leagues;
    }
    let ghost all = leagues@;
    let ghost keeps = |league: LeagueConfigs| views(wanted@).contains(league.name@);
    let mut chosen: Vec<LeagueConfigs> = Vec::new();
    for league in it: leagues
        invariant
            it.seq() == all,
            keeps == (|league: LeagueConfigs| views(wanted@).contains(league.name@)),
            chosen@ == all.take(it.index() as int).filter(keeps),
    {
        proof {
            let n = it.index() as int;
            reveal(Seq::filter);
            assert(all.take(n + 1).drop_last() =~= all.take(n));
            assert(all.take(n + 1).last() == league);
        }
        if has_name(wanted, league.name.as_str()) {
            chosen.push(league);
        }
    }
    assert(all.take(all.len() as int) =~= all);
    chosen
}

/// The text of two lists of counts put together is the two texts put together.
pub proof fn live_lists_join(first: Seq<LiveByLeague>, second: Seq<LiveByLeague>)
    ensures
        live_list_text(first + second) == live_list_text(first) + live_list_text(second),
    decreases second.len(),
{
    if second.len() == 0 {
        assert(first + second =~= first);
        assert(live_list_text(first) + live_list_text(second) =~= live_list_text(first));
    } else {
        assert((first + second).drop_last() =~= first + second.drop_last());
        live_lists_join(first, second.drop_last());
        assert(live_list_text(first + second) =~= live_list_text(first) + live_list_text(second));
    }
}

/// The address of the scoreboard of a league.
pub fn scoreboard_url(slug: &str) -> (r: String)
    ensures
        r@ == "https://site.api.espn.com/apis/site/v2/sports/"@ + slug@ + "/scoreboard"@,
{
    let mut url: String = "https://site.api.espn.com/apis/site/v2/sports/".to_owned();
    url.append(slug);
    url.append("/scoreboard");
    url
}

/// The names of leagues are those of each league, in their order.
pub proof fn names_follow_leagues(leagues: Seq<LeagueConfigs>)
    ensures
        names_of(leagues).len() == leagues.len(),
        forall|i: int| 0 <= i < leagues.len() ==> #[trigger] names_of(leagues)[i]
            == leagues[i].name@,
{
}

/// The placeholders are numbered from one on, with a comma and a space between two of them: one more
/// league adds one more number at the end.
pub proof fn placeholders_count_on(count: nat)
    requires
        count > 0,
    ensures
        placeholders(0) == Seq::<char>::empty(),
        placeholders(1) == "$"@ + decimal(1),
        placeholders(count + 1) == placeholders(count) + ", $"@ + decimal(count + 1),
{
    reveal_strlit(", ");
    reveal_strlit("$");
    reveal_strlit(", $");
    assert(", "@ + "$"@ =~= ", $"@);
    assert(placeholders(count) + ", "@ + "$"@ + decimal(count + 1) =~= placeholders(count) + (
    ", "@ + "$"@) + decimal(count + 1));
}

/// The count of a league reads as the league and its number, in brackets, and one count alone reads
/// as that with a space after it.
pub proof fn live_count_reads_as_pair(item: LiveByLeague)
    ensures
        live_text(item) == "("@ + item.league@ + ", "@ + signed_decimal(item.count as int) + ")"@,
        live_list_text(seq![item]) == live_text(item) + " "@,
        live_list_text(seq![]) == Seq::<char>::empty(),
{
    reveal_with_fuel(live_list_text, 2);
    assert(seq![item].drop_last() =~= Seq::<LiveByLeague>::empty());
    assert(live_list_text(seq![item]) =~= live_text(item) + " "@);
}

/// Where names are wanted, a league is read exactly where its name is among them, and the leagues keep
/// their order: one more league at the end adds itself at the end of the choice, or nothing. Where
/// none is wanted, all are read.
pub proof fn wanted_leagues_are_chosen_one_by_one(
    leagues: Seq<LeagueConfigs>,
    league: LeagueConfigs,
    wanted: Seq<Seq<char>>,
)
    ensures
        wanted.len() == 0 ==> wanted_leagues(leagues, wanted) == leagues,
        wanted.len() > 0 && wanted.contains(league.name@) ==> wanted_leagues(
            leagues.push(league),
            wanted,
        ) == wanted_leagues(leagues, wanted).push(league),
        wanted.len() > 0 && !wanted.contains(league.name@) ==> wanted_leagues(
            leagues.push(league),
            wanted,
        ) == wanted_leagues(leagues, wanted),
        wanted_leagues(seq![], wanted) == Seq::<LeagueConfigs>::empty(),
{
    reveal(Seq::filter);
    assert(leagues.push(league).drop_last() =~= leagues);
}

} // verus!
