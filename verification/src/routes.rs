//! The catalogue of autonomous routes that the route selector offers.
use vstd::prelude::*;

verus! {

/// The group under which the selector lists a route.
#[derive(Clone, Copy, Debug, PartialEq, Eq, Structural, PartialOrd, Ord, Hash)]
pub enum Category {
    Left,
    Right,
    Other,
}

/// The name under which the selector shows a category.
pub open spec fn category_name(c: Category) -> Seq<char> {
    match c {
        Category::Left => "Left"@,
        Category::Right => "Right"@,
        Category::Other => "Other"@,
    }
}

impl Category {
    /// The category's name as the selector shows it.
    pub fn to_string(&self) -> (res: String)
        ensures
            res@ == category_name(*self),
    {
        match self {
            Category::Left => String::from_str("Left"),
            Category::Right => String::from_str("Right"),
            Category::Other => String::from_str("Other"),
        }
    }
}

/// A route as the selector lists it.
#[derive(Clone, Copy, Debug)]
pub struct RouteInfo {
    pub category: Category,
    pub name: &'static str,
    pub description: &'static str,
}

/// The category, name and description of the route at `i`.
pub open spec fn route_entry(i: int) -> (Category, Seq<char>, Seq<char>) {
    if i == 0 {
        (Category::Left, "Left primary"@, "Center goal > loader > long"@)
    } else if i == 1 {
        (Category::Left, "Left long first"@, "Loader > long > center goal"@)
    } else if i == 2 {
        (Category::Left, "Left new"@, "Center balls > loader > long"@)
    } else if i == 3 {
        (Category::Right, "Right primary"@, "Center goal > loader > long"@)
    } else if i == 4 {
        (Category::Other, "None"@, "No-op. Nothing."@)
    } else if i == 5 {
        (Category::Other, "Test route"@, "Test route - do not run"@)
    } else {
        (Category::Other, "Skills"@, "Same setup as left long first"@)
    }
}

/// The number of routes.
pub open spec fn route_count() -> nat {
    7
}

/// Whether a list of routes is the catalogue.
pub open spec fn is_catalogue(routes: Seq<RouteInfo>) -> bool {
    &&& routes.len() == route_count()
    &&& forall|i: int|
        0 <= i < routes.len() ==> ((#[trigger] routes[i]).category, routes[i].name@, routes[i].description@)
            == route_entry(i)
}

/// The routes in the order in which the selector lists them.
pub fn route_catalogue() -> (res: Vec<RouteInfo>)
    ensures
        is_catalogue(res@),
{
    let mut routes: Vec<RouteInfo> = Vec::new();
    routes.push(RouteInfo { category: Category::Left, name: "Left primary", description: "Center goal > loader > long" });
    routes.push(RouteInfo { category: Category::Left, name: "Left long first", description: "Loader > long > center goal" });
    routes.push(RouteInfo { category: Category::Left, name: "Left new", description: "Center balls > loader > long" });
    routes.push(RouteInfo { category: Category::Right, name: "Right primary", description: "Center goal > loader > long" });
    // Misc routes
    routes.push(RouteInfo { category: Category::Other, name: "None", description: "No-op. Nothing." });
    routes.push(RouteInfo { category: Category::Other, name: "Test route", description: "Test route - do not run" });
    routes.push(RouteInfo { category: Category::Other, name: "Skills", description: "Same setup as left long first" });
    routes
}

/// The index of the route to run on its own when testing, if any.
pub open spec fn testing_route() -> Option<usize> {
    Some(6usize)
}

/// If returning `Some(index)`, the route at that index will be run
/// automatically when testing with the legacy competition switch.
pub fn testing_route_index() -> (res: Option<usize>)
    ensures
        res == testing_route(),
{
    Some(6)
}

/// The route to select before the match: the testing route where the robot is
/// connected to the legacy competition switch, and none otherwise.
pub fn preselected_route(on_competition_switch: bool) -> (res: Option<usize>)
    ensures
        res == (if on_competition_switch {
            testing_route()
        } else {
            None::<usize>
        }),
{
    if on_competition_switch {
        testing_route_index()
    } else {
        None
    }
}

/// The testing route, where there is one, is a route of the catalogue: the
/// skills route.
pub proof fn testing_route_is_skills(routes: Seq<RouteInfo>)
    requires
        is_catalogue(routes),
    ensures
        testing_route() matches Some(i) ==> {
            &&& i < routes.len()
            &&& routes[i as int].name@ == "Skills"@
            &&& routes[i as int].category == Category::Other
        },
{
    assert(routes[6].name@ == route_entry(6).1);
}

/// Whether a trigger fires on a check, given whether it had fired before.
pub open spec fn trigger_fires(triggered: bool, condition: bool) -> bool {
    condition && !triggered
}

/// Whether a trigger has fired after a check.
pub open spec fn triggered_after(triggered: bool, condition: bool) -> bool {
    triggered || condition
}

/// A trigger that fires the first time its condition holds and never again,
/// as the routes use to retract the match loader and start outtaking once the
/// robot has backed far enough.
pub struct OnceTrigger {
    pub triggered: bool,
}

impl OnceTrigger {
    /// A trigger that has not fired.
    pub fn new() -> (res: OnceTrigger)
        ensures
            !res.triggered,
    {
        OnceTrigger { triggered: false }
    }

    /// Checks the trigger with this update's condition; the result is whether
    /// it fires now.
    pub fn check(&mut self, condition: bool) -> (fires: bool)
        ensures
            fires == trigger_fires(old(self).triggered, condition),
            final(self).triggered == triggered_after(old(self).triggered, condition),
    {
        if condition && !self.triggered {
            self.triggered = true;
            true
        } else {
            false
        }
    }
}

/// A trigger fires at most once: once it has fired, no later check fires it.
pub proof fn once_trigger_fires_once(triggered: bool, first: bool, second: bool)
    ensures
        trigger_fires(triggered, first) ==> !trigger_fires(triggered_after(triggered, first), second),
        triggered_after(triggered, first) ==> triggered_after(triggered_after(triggered, first), second),
{
}

/// How long the skills route intakes at a match loader, in milliseconds.
pub const MATCH_LOAD_DURATION_MS: u64 = 2750;

/// How long the skills route outtakes into a goal, in milliseconds. It is not
/// shorter than `GOAL_CALIBRATE_DURATION_MS`.
pub const GOAL_OUTTAKE_DURATION_MS: u64 = 2000;

/// How long the skills route backs up against a goal before taking its
/// position from it, in milliseconds.
pub const GOAL_CALIBRATE_DURATION_MS: u64 = 800;

/// How long the skills route keeps outtaking after taking its position from
/// the goal: the rest of the outtake time.
pub fn outtake_after_calibration_ms() -> (res: u64)
    ensures
        res + GOAL_CALIBRATE_DURATION_MS == GOAL_OUTTAKE_DURATION_MS,
{
    GOAL_OUTTAKE_DURATION_MS - GOAL_CALIBRATE_DURATION_MS
}

/// How long the left center route holds the robot at the match loader, in
/// milliseconds: longer in skills.
pub fn match_load_hold_ms(is_skills: bool) -> (res: u64)
    ensures
        res == (if is_skills { 3000u64 } else { 1200u64 }),
{
    if is_skills {
        3000
    } else {
        1200
    }
}

/// How long the left center route waits while outtaking into the long goal,
/// in milliseconds: longer in skills.
pub fn long_goal_outtake_ms(is_skills: bool) -> (res: u64)
    ensures
        res == (if is_skills { 8000u64 } else { 3000u64 }),
{
    if is_skills {
        8000
    } else {
        3000
    }
}

/// The catalogue lists the original routes: the three left routes under
/// Left, the right route under Right, and the none, test and skills routes
/// under Other, each under its own name and description.
pub proof fn catalogue_lists_the_routes(routes: Seq<RouteInfo>)
    requires
        is_catalogue(routes),
    ensures
        routes.len() == 7,
        routes[0].category == Category::Left && routes[0].name@ == "Left primary"@
            && routes[0].description@ == "Center goal > loader > long"@,
        routes[1].category == Category::Left && routes[1].name@ == "Left long first"@
            && routes[1].description@ == "Loader > long > center goal"@,
        routes[2].category == Category::Left && routes[2].name@ == "Left new"@
            && routes[2].description@ == "Center balls > loader > long"@,
        routes[3].category == Category::Right && routes[3].name@ == "Right primary"@
            && routes[3].description@ == "Center goal > loader > long"@,
        routes[4].category == Category::Other && routes[4].name@ == "None"@
            && routes[4].description@ == "No-op. Nothing."@,
        routes[5].category == Category::Other && routes[5].name@ == "Test route"@
            && routes[5].description@ == "Test route - do not run"@,
        routes[6].category == Category::Other && routes[6].name@ == "Skills"@
            && routes[6].description@ == "Same setup as left long first"@,
{
    assert(routes[0] == routes[0]);
    assert(routes[1] == routes[1]);
    assert(routes[2] == routes[2]);
    assert(routes[3] == routes[3]);
    assert(routes[4] == routes[4]);
    assert(routes[5] == routes[5]);
    assert(routes[6] == routes[6]);
}

} // verus!
