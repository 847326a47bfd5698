//! Synthetics tools: cleaning and checking test definitions, planning the
//! edits of a test update, and summarizing the testing locations.
use vstd::prelude::*;
use crate::sanitize::{
    sanitize_name, sanitize_optional, sanitize_tags, sanitized, MAX_MESSAGE_LENGTH,
    MAX_NAME_LENGTH,
};
use crate::text::{contains_str, has_substr, lowercase, owned, str_eq, to_lowercase};
use crate::tools::events::{opt_tags_view, sanitized_opt_tags};
use crate::tools::monitors::{opt_view, sanitized_opt};
use crate::tools::{tally, tallies};

verus! {

/// Check frequency, in seconds, of a test when none is given.
pub const DEFAULT_TICK_EVERY: i32 = 300;

/// The message for a test type other than `api`.
pub const UNSUPPORTED_TEST_TYPE: &'static str = "Only 'api' test type is currently supported";

/// The message for a request that names no test.
pub const NO_TEST_IDS: &'static str = "At least one test ID must be provided";

/// A new HTTP test after sanitization.
#[derive(Debug, Clone)]
pub struct SyntheticsTestDraft {
    pub name: String,
    pub message: Option<String>,
    pub tags: Option<Vec<String>>,
    pub tick_every: i32,
}

/// Sanitizes a new test's name, message and tags, and fills in the check
/// frequency; only the `api` test type is supported.
pub fn prepare_synthetics_test(
    name: &str,
    test_type: &str,
    message: Option<String>,
    tags: Option<Vec<String>>,
    tick_every: Option<i32>,
) -> (r: Result<SyntheticsTestDraft, String>)
    ensures
        r is Ok <==> test_type@ == "api"@,
        r matches Err(m) ==> m@ == UNSUPPORTED_TEST_TYPE@,
        r matches Ok(d) ==> {
            &&& d.name@ == sanitized(name@, MAX_NAME_LENGTH as nat)
            &&& opt_view(d.message) == sanitized_opt(message, MAX_MESSAGE_LENGTH as nat)
            &&& opt_tags_view(d.tags) == sanitized_opt_tags(tags)
            &&& d.tick_every == match tick_every {
                Some(t) => t,
                None => DEFAULT_TICK_EVERY,
            }
        },
{
    let name = sanitize_name(name);
    let message = sanitize_optional(message, MAX_MESSAGE_LENGTH);
    let tags = match tags {
        Some(v) => Some(sanitize_tags(v)),
        None => None,
    };
    if !str_eq(test_type, "api") {
        return Err(owned(UNSUPPORTED_TEST_TYPE));
    }
    let tick_every = match tick_every {
        Some(t) => t,
        None => DEFAULT_TICK_EVERY,
    };
    Ok(SyntheticsTestDraft { name, message, tags, tick_every })
}

/// The changes of a test update, after sanitization.
#[derive(Debug, Clone)]
pub struct SyntheticsTestChanges {
    pub name: Option<String>,
    pub message: Option<String>,
    pub tags: Option<Vec<String>>,
}

/// Sanitizes the optional name, message and tags of a test update.
pub fn prepare_synthetics_update(
    name: Option<String>,
    message: Option<String>,
    tags: Option<Vec<String>>,
) -> (r: SyntheticsTestChanges)
    ensures
        opt_view(r.name) == sanitized_opt(name, MAX_NAME_LENGTH as nat),
        opt_view(r.message) == sanitized_opt(message, MAX_MESSAGE_LENGTH as nat),
        opt_tags_view(r.tags) == sanitized_opt_tags(tags),
{
    SyntheticsTestChanges {
        name: sanitize_optional(name, MAX_NAME_LENGTH),
        message: sanitize_optional(message, MAX_MESSAGE_LENGTH),
        tags: match tags {
            Some(v) => Some(sanitize_tags(v)),
            None => None,
        },
    }
}

/// One change to a stored test definition.
#[derive(Debug, Clone, PartialEq, Eq)]
pub enum TestEdit {
    /// Sets a top-level text field (`name` or `message`).
    SetText(&'static str, String),
    /// Sets a top-level list field (`locations` or `tags`).
    SetList(&'static str, Vec<String>),
    /// Sets `options.tick_every`.
    SetTickEvery(i32),
    /// Sets `config.request.url`.
    SetUrl(String),
    /// Removes a top-level field.
    Remove(&'static str),
}

/// The message for a stored test without an `options` object.
pub const NO_OPTIONS_OBJECT: &'static str = "Synthetics response has no options object";

/// The message for a stored test without a `config.request` object.
pub const NO_REQUEST_OBJECT: &'static str = "Synthetics response has no config.request object";

/// The edit that sets a text field, when a new value is given.
pub open spec fn text_edit(field: &'static str, value: Option<String>) -> Seq<TestEdit> {
    match value {
        Some(v) => seq![TestEdit::SetText(field, v)],
        None => Seq::empty(),
    }
}

/// The edit that sets a list field, when a new value is given.
pub open spec fn list_edit(field: &'static str, value: Option<Vec<String>>) -> Seq<TestEdit> {
    match value {
        Some(v) => seq![TestEdit::SetList(field, v)],
        None => Seq::empty(),
    }
}

/// The edit that sets the check frequency, when one is given.
pub open spec fn tick_edit(tick_every: Option<i32>) -> Seq<TestEdit> {
    match tick_every {
        Some(t) => seq![TestEdit::SetTickEvery(t)],
        None => Seq::empty(),
    }
}

/// The edit that sets the URL, when one is given.
pub open spec fn url_edit(url: Option<String>) -> Seq<TestEdit> {
    match url {
        Some(u) => seq![TestEdit::SetUrl(u)],
        None => Seq::empty(),
    }
}

/// The edits of a test update, in order: the new name, locations, message
/// and tags, the check frequency and the URL where given, then the removal
/// of the fields that Datadog sets itself.
pub open spec fn planned_edits(
    changes: SyntheticsTestChanges,
    locations: Option<Vec<String>>,
    tick_every: Option<i32>,
    url: Option<String>,
) -> Seq<TestEdit> {
    text_edit("name", changes.name) + list_edit("locations", locations) + text_edit(
        "message",
        changes.message,
    ) + list_edit("tags", changes.tags) + tick_edit(tick_every) + url_edit(url) + seq![
        TestEdit::Remove("public_id"),
        TestEdit::Remove("created_at"),
        TestEdit::Remove("modified_at"),
    ]
}

/// Appends the edit that sets a text field, when a new value is given.
fn push_text_edit(edits: &mut Vec<TestEdit>, field: &'static str, value: Option<String>)
    ensures
        final(edits)@ == old(edits)@ + text_edit(field, value),
{
    match value {
        Some(v) => {
            edits.push(TestEdit::SetText(field, v));
            assert(edits@ =~= old(edits)@ + text_edit(field, Some(v)));
        },
        None => {
            assert(edits@ =~= old(edits)@ + text_edit(field, None));
        },
    }
}

/// Appends the edit that sets a list field, when a new value is given.
fn push_list_edit(edits: &mut Vec<TestEdit>, field: &'static str, value: Option<Vec<String>>)
    ensures
        final(edits)@ == old(edits)@ + list_edit(field, value),
{
    match value {
        Some(v) => {
            edits.push(TestEdit::SetList(field, v));
            assert(edits@ =~= old(edits)@ + list_edit(field, Some(v)));
        },
        None => {
            assert(edits@ =~= old(edits)@ + list_edit(field, None));
        },
    }
}

/// The edits of a plan that a predicate selects, piece by piece.
proof fn lemma_plan_filter(
    changes: SyntheticsTestChanges,
    locations: Option<Vec<String>>,
    tick_every: Option<i32>,
    url: Option<String>,
    pred: spec_fn(TestEdit) -> bool,
)
    requires
        !pred(TestEdit::Remove("public_id")),
        !pred(TestEdit::Remove("created_at")),
        !pred(TestEdit::Remove("modified_at")),
    ensures
        planned_edits(changes, locations, tick_every, url).filter(pred) == text_edit(
            "name",
            changes.name,
        ).filter(pred) + list_edit("locations", locations).filter(pred) + text_edit(
            "message",
            changes.message,
        ).filter(pred) + list_edit("tags", changes.tags).filter(pred) + tick_edit(
            tick_every,
        ).filter(pred) + url_edit(url).filter(pred),
{
    let a1 = text_edit("name", changes.name);
    let a2 = list_edit("locations", locations);
    let a3 = text_edit("message", changes.message);
    let a4 = list_edit("tags", changes.tags);
    let a5 = tick_edit(tick_every);
    let a6 = url_edit(url);
    let rm = seq![
        TestEdit::Remove("public_id"),
        TestEdit::Remove("created_at"),
        TestEdit::Remove("modified_at"),
    ];
    Seq::filter_distributes_over_add(a1 + a2 + a3 + a4 + a5 + a6, rm, pred);
    Seq::filter_distributes_over_add(a1 + a2 + a3 + a4 + a5, a6, pred);
    Seq::filter_distributes_over_add(a1 + a2 + a3 + a4, a5, pred);
    Seq::filter_distributes_over_add(a1 + a2 + a3, a4, pred);
    Seq::filter_distributes_over_add(a1 + a2, a3, pred);
    Seq::filter_distributes_over_add(a1, a2, pred);
    reveal_with_fuel(Seq::filter, 4);
    assert(rm.filter(pred) =~= Seq::<TestEdit>::empty()) by {
        assert(rm.drop_last().drop_last().drop_last() =~= Seq::<TestEdit>::empty());
        assert(rm.drop_last().drop_last() =~= seq![TestEdit::Remove("public_id")]);
        assert(rm.drop_last() =~= seq![TestEdit::Remove("public_id"), TestEdit::Remove("created_at")]);
    }
    assert(a1 + a2 + a3 + a4 + a5 + a6 + rm == planned_edits(changes, locations, tick_every, url));
}

/// A piece of at most one edit keeps its edit under a predicate exactly when
/// the predicate selects it.
proof fn lemma_single_filter(piece: Seq<TestEdit>, pred: spec_fn(TestEdit) -> bool)
    requires
        piece.len() <= 1,
    ensures
        piece.filter(pred) == (if piece.len() == 1 && pred(piece[0]) {
            piece
        } else {
            Seq::empty()
        }),
{
    reveal_with_fuel(Seq::filter, 2);
    if piece.len() == 1 {
        assert(piece.drop_last() =~= Seq::<TestEdit>::empty());
    }
}

/// The names of the fields an update may set, told apart.
proof fn lemma_field_names_differ()
    ensures
        "name"@ != "message"@,
        "locations"@ != "tags"@,
{
    reveal_strlit("name");
    reveal_strlit("message");
    reveal_strlit("locations");
    reveal_strlit("tags");
    assert("name"@.len() == 4);
    assert("message"@.len() == 7);
    assert("locations"@.len() == 9);
    assert("tags"@.len() == 4);
}

/// Each field a test update gives is set by exactly one planned edit, to
/// the given value, and a field that is not given is not set at all.
pub proof fn lemma_update_sets_each_given_field(
    changes: SyntheticsTestChanges,
    locations: Option<Vec<String>>,
    tick_every: Option<i32>,
    url: Option<String>,
)
    ensures
        planned_edits(changes, locations, tick_every, url).filter(
            |e: TestEdit| e matches TestEdit::SetText(f, _) && f@ == "name"@,
        ) == match changes.name {
            Some(v) => seq![TestEdit::SetText("name", v)],
            None => Seq::<TestEdit>::empty(),
        },
        planned_edits(changes, locations, tick_every, url).filter(
            |e: TestEdit| e matches TestEdit::SetText(f, _) && f@ == "message"@,
        ) == match changes.message {
            Some(v) => seq![TestEdit::SetText("message", v)],
            None => Seq::<TestEdit>::empty(),
        },
        planned_edits(changes, locations, tick_every, url).filter(
            |e: TestEdit| e matches TestEdit::SetList(f, _) && f@ == "locations"@,
        ) == match locations {
            Some(v) => seq![TestEdit::SetList("locations", v)],
            None => Seq::<TestEdit>::empty(),
        },
        planned_edits(changes, locations, tick_every, url).filter(
            |e: TestEdit| e matches TestEdit::SetList(f, _) && f@ == "tags"@,
        ) == match changes.tags {
            Some(v) => seq![TestEdit::SetList("tags", v)],
            None => Seq::<TestEdit>::empty(),
        },
        planned_edits(changes, locations, tick_every, url).filter(
            |e: TestEdit| e is SetTickEvery,
        ) == match tick_every {
            Some(t) => seq![TestEdit::SetTickEvery(t)],
            None => Seq::<TestEdit>::empty(),
        },
        planned_edits(changes, locations, tick_every, url).filter(|e: TestEdit| e is SetUrl)
            == match url {
            Some(u) => seq![TestEdit::SetUrl(u)],
            None => Seq::<TestEdit>::empty(),
        },
{
    lemma_field_names_differ();
    let a1 = text_edit("name", changes.name);
    let a2 = list_edit("locations", locations);
    let a3 = text_edit("message", changes.message);
    let a4 = list_edit("tags", changes.tags);
    let a5 = tick_edit(tick_every);
    let a6 = url_edit(url);
    let p_name = |e: TestEdit| e matches TestEdit::SetText(f, _) && f@ == "name"@;
    let p_message = |e: TestEdit| e matches TestEdit::SetText(f, _) && f@ == "message"@;
    let p_locations = |e: TestEdit| e matches TestEdit::SetList(f, _) && f@ == "locations"@;
    let p_tags = |e: TestEdit| e matches TestEdit::SetList(f, _) && f@ == "tags"@;
    let p_tick = |e: TestEdit| e is SetTickEvery;
    let p_url = |e: TestEdit| e is SetUrl;
    lemma_plan_filter(changes, locations, tick_every, url, p_name);
    lemma_plan_filter(changes, locations, tick_every, url, p_message);
    lemma_plan_filter(changes, locations, tick_every, url, p_locations);
    lemma_plan_filter(changes, locations, tick_every, url, p_tags);
    lemma_plan_filter(changes, locations, tick_every, url, p_tick);
    lemma_plan_filter(changes, locations, tick_every, url, p_url);
    lemma_single_filter(a1, p_name);
    lemma_single_filter(a2, p_name);
    lemma_single_filter(a3, p_name);
    lemma_single_filter(a4, p_name);
    lemma_single_filter(a5, p_name);
    lemma_single_filter(a6, p_name);
    lemma_single_filter(a1, p_message);
    lemma_single_filter(a2, p_message);
    lemma_single_filter(a3, p_message);
    lemma_single_filter(a4, p_message);
    lemma_single_filter(a5, p_message);
    lemma_single_filter(a6, p_message);
    lemma_single_filter(a1, p_locations);
    lemma_single_filter(a2, p_locations);
    lemma_single_filter(a3, p_locations);
    lemma_single_filter(a4, p_locations);
    lemma_single_filter(a5, p_locations);
    lemma_single_filter(a6, p_locations);
    lemma_single_filter(a1, p_tags);
    lemma_single_filter(a2, p_tags);
    lemma_single_filter(a3, p_tags);
    lemma_single_filter(a4, p_tags);
    lemma_single_filter(a5, p_tags);
    lemma_single_filter(a6, p_tags);
    lemma_single_filter(a1, p_tick);
    lemma_single_filter(a2, p_tick);
    lemma_single_filter(a3, p_tick);
    lemma_single_filter(a4, p_tick);
    lemma_single_filter(a5, p_tick);
    lemma_single_filter(a6, p_tick);
    lemma_single_filter(a1, p_url);
    lemma_single_filter(a2, p_url);
    lemma_single_filter(a3, p_url);
    lemma_single_filter(a4, p_url);
    lemma_single_filter(a5, p_url);
    lemma_single_filter(a6, p_url);
    assert(planned_edits(changes, locations, tick_every, url).filter(p_name) =~= match changes.name {
        Some(v) => seq![TestEdit::SetText("name", v)],
        None => Seq::<TestEdit>::empty(),
    });
    assert(planned_edits(changes, locations, tick_every, url).filter(p_message) =~= match changes.message {
        Some(v) => seq![TestEdit::SetText("message", v)],
        None => Seq::<TestEdit>::empty(),
    });
    assert(planned_edits(changes, locations, tick_every, url).filter(p_locations) =~= match locations {
        Some(v) => seq![TestEdit::SetList("locations", v)],
        None => Seq::<TestEdit>::empty(),
    });
    assert(planned_edits(changes, locations, tick_every, url).filter(p_tags) =~= match changes.tags {
        Some(v) => seq![TestEdit::SetList("tags", v)],
        None => Seq::<TestEdit>::empty(),
    });
    assert(planned_edits(changes, locations, tick_every, url).filter(p_tick) =~= match tick_every {
        Some(t) => seq![TestEdit::SetTickEvery(t)],
        None => Seq::<TestEdit>::empty(),
    });
    assert(planned_edits(changes, locations, tick_every, url).filter(p_url) =~= match url {
        Some(u) => seq![TestEdit::SetUrl(u)],
        None => Seq::<TestEdit>::empty(),
    });
}

/// Plans the edits of a stored test for an update. A new check frequency
/// needs the test's `options` object and a new URL its `config.request`
/// object; the frequency is checked first.
pub fn plan_test_update(
    changes: SyntheticsTestChanges,
    locations: Option<Vec<String>>,
    tick_every: Option<i32>,
    url: Option<String>,
    has_options: bool,
    has_request: bool,
) -> (r: Result<Vec<TestEdit>, &'static str>)
    ensures
        tick_every is Some && !has_options ==> r == Err::<Vec<TestEdit>, &'static str>(
            NO_OPTIONS_OBJECT,
        ),
        (tick_every is None || has_options) && url is Some && !has_request ==> r == Err::<
            Vec<TestEdit>,
            &'static str,
        >(NO_REQUEST_OBJECT),
        r is Ok <==> (tick_every is None || has_options) && (url is None || has_request),
        r matches Ok(edits) ==> edits@ == planned_edits(changes, locations, tick_every, url),
{
    if tick_every.is_some() && !has_options {
        return Err(NO_OPTIONS_OBJECT);
    }
    if url.is_some() && !has_request {
        return Err(NO_REQUEST_OBJECT);
    }
    let ghost planned = planned_edits(changes, locations, tick_every, url);
    let ghost tick = tick_edit(tick_every);
    let ghost new_url = url_edit(url);
    let mut edits: Vec<TestEdit> = Vec::new();
    push_text_edit(&mut edits, "name", changes.name);
    push_list_edit(&mut edits, "locations", locations);
    push_text_edit(&mut edits, "message", changes.message);
    push_list_edit(&mut edits, "tags", changes.tags);
    let ghost before_tick = edits@;
    match tick_every {
        Some(t) => edits.push(TestEdit::SetTickEvery(t)),
        None => {},
    }
    assert(edits@ =~= before_tick + tick);
    let ghost before_url = edits@;
    match url {
        Some(u) => edits.push(TestEdit::SetUrl(u)),
        None => {},
    }
    assert(edits@ =~= before_url + new_url);
    edits.push(TestEdit::Remove("public_id"));
    edits.push(TestEdit::Remove("created_at"));
    edits.push(TestEdit::Remove("modified_at"));
    assert(edits@ =~= planned);
    Ok(edits)
}

/// Refuses a trigger or delete request that names no test.
pub fn require_test_ids(count: usize) -> (r: Result<(), String>)
    ensures
        r is Ok <==> count > 0,
        r matches Err(m) ==> m@ == NO_TEST_IDS@,
{
    if count == 0 {
        Err(owned(NO_TEST_IDS))
    } else {
        Ok(())
    }
}

/// A testing location as the summary sees it.
#[derive(Debug, Clone)]
pub struct LocationInfo {
    pub id: String,
    pub region: Option<String>,
    pub is_private: Option<bool>,
}

/// A location is private only when it says so.
pub open spec fn is_public(l: LocationInfo) -> bool {
    l.is_private != Some(true)
}

/// The region name of a location, `Unknown` when it has none.
pub open spec fn region_name(l: LocationInfo) -> Seq<char> {
    match l.region {
        Some(r) => r@,
        None => "Unknown"@,
    }
}

/// The public locations.
pub open spec fn public_locations(locs: Seq<LocationInfo>) -> Seq<LocationInfo>
    decreases locs.len(),
{
    if locs.len() == 0 {
        Seq::empty()
    } else if is_public(locs.last()) {
        public_locations(locs.drop_last()).push(locs.last())
    } else {
        public_locations(locs.drop_last())
    }
}

/// The ids of the public locations whose lower-cased id contains `eu`.
pub open spec fn eu_location_ids(locs: Seq<LocationInfo>) -> Seq<Seq<char>>
    decreases locs.len(),
{
    if locs.len() == 0 {
        Seq::empty()
    } else if is_public(locs.last()) && has_substr(lowercase(locs.last().id@), "eu"@) {
        eu_location_ids(locs.drop_last()).push(locs.last().id@)
    } else {
        eu_location_ids(locs.drop_last())
    }
}

/// The ids of the public locations in the named region.
pub open spec fn region_location_ids(locs: Seq<LocationInfo>, region: Seq<char>) -> Seq<
    Seq<char>,
>
    decreases locs.len(),
{
    if locs.len() == 0 {
        Seq::empty()
    } else if is_public(locs.last()) && region_name(locs.last()) == region {
        region_location_ids(locs.drop_last(), region).push(locs.last().id@)
    } else {
        region_location_ids(locs.drop_last(), region)
    }
}

/// The summary of the testing locations.
#[derive(Debug, Clone)]
pub struct LocationsOverview {
    pub total: usize,
    pub public_count: usize,
    pub private_count: usize,
    pub eu_locations: Vec<String>,
    pub region_names: Vec<String>,
    pub region_counts: Vec<usize>,
    pub region_ids: Vec<Vec<String>>,
}

/// Collects the ids of the public locations in `region`.
fn ids_in_region(locs: &Vec<LocationInfo>, region: &str) -> (r: Vec<String>)
    ensures
        crate::sanitize::views(r@) == region_location_ids(locs@, region@),
{
    let mut out: Vec<String> = Vec::new();
    let mut i: usize = 0;
    while i < locs.len()
        invariant
            i <= locs@.len(),
            crate::sanitize::views(out@) == region_location_ids(locs@.take(i as int), region@),
        decreases locs@.len() - i,
    {
        let l = &locs[i];
        proof {
            assert(locs@.take(i + 1).drop_last() =~= locs@.take(i as int));
        }
        let public = match l.is_private {
            Some(p) => !p,
            None => true,
        };
        let matches = match &l.region {
            Some(r) => str_eq(r.as_str(), region),
            None => str_eq("Unknown", region),
        };
        if public && matches {
            let ghost before = out@;
            out.push(l.id.clone());
            assert(crate::sanitize::views(out@) =~= crate::sanitize::views(before).push(l.id@));
        }
        i = i + 1;
    }
    assert(locs@.take(locs@.len() as int) =~= locs@);
    out
}

/// Summarizes the testing locations: how many there are, how many are
/// public and private, the public ones in Europe, and the public ones by
/// region.
pub fn locations_overview(locs: &Vec<LocationInfo>) -> (r: LocationsOverview)
    ensures
        r.total == locs@.len(),
        r.public_count == public_locations(locs@).len(),
        r.public_count + r.private_count == locs@.len(),
        crate::sanitize::views(r.eu_locations@) == eu_location_ids(locs@),
        tallies(
            (crate::tools::Tally { values: r.region_names, counts: r.region_counts }),
            public_locations(locs@).map_values(|l: LocationInfo| region_name(l)),
        ),
        r.region_ids@.len() == r.region_names@.len(),
        forall|i: int|
            0 <= i < r.region_ids@.len() ==> crate::sanitize::views(#[trigger] r.region_ids@[i]@)
                == region_location_ids(locs@, r.region_names@[i]@),
{
    let mut public_count: usize = 0;
    let mut eu: Vec<String> = Vec::new();
    let mut regions: Vec<String> = Vec::new();
    let mut i: usize = 0;
    while i < locs.len()
        invariant
            i <= locs@.len(),
            public_count == public_locations(locs@.take(i as int)).len(),
            public_count <= i,
            crate::sanitize::views(eu@) == eu_location_ids(locs@.take(i as int)),
            crate::sanitize::views(regions@) == public_locations(locs@.take(i as int)).map_values(
                |l: LocationInfo| region_name(l),
            ),
        decreases locs@.len() - i,
    {
        let l = &locs[i];
        proof {
            assert(locs@.take(i + 1).drop_last() =~= locs@.take(i as int));
        }
        let public = match l.is_private {
            Some(p) => !p,
            None => true,
        };
        if public {
            public_count = public_count + 1;
            let lower = to_lowercase(l.id.as_str());
            if contains_str(lower.as_str(), "eu") {
                let ghost before = eu@;
                eu.push(l.id.clone());
                assert(crate::sanitize::views(eu@) =~= crate::sanitize::views(before).push(
                    l.id@,
                ));
            }
            let name = match &l.region {
                Some(r) => r.clone(),
                None => owned("Unknown"),
            };
            let ghost before_regions = regions@;
            regions.push(name);
            proof {
                assert(crate::sanitize::views(regions@) =~= crate::sanitize::views(
                    before_regions,
                ).push(region_name(*l)));
                assert(public_locations(locs@.take(i + 1)).map_values(
                    |l: LocationInfo| region_name(l),
                ) =~= public_locations(locs@.take(i as int)).map_values(
                    |l: LocationInfo| region_name(l),
                ).push(region_name(*l)));
            }
        }
        i = i + 1;
    }
    assert(locs@.take(locs@.len() as int) =~= locs@);
    let grouped = tally(&regions);
    let mut region_ids: Vec<Vec<String>> = Vec::new();
    let mut k: usize = 0;
    while k < grouped.values.len()
        invariant
            k <= grouped.values@.len(),
            region_ids@.len() == k,
            forall|j: int|
                0 <= j < k ==> crate::sanitize::views(#[trigger] region_ids@[j]@)
                    == region_location_ids(locs@, grouped.values@[j]@),
        decreases grouped.values@.len() - k,
    {
        let ids = ids_in_region(locs, grouped.values[k].as_str());
        region_ids.push(ids);
        k = k + 1;
    }
    LocationsOverview {
        total: locs.len(),
        public_count,
        private_count: locs.len() - public_count,
        eu_locations: eu,
        region_names: grouped.values,
        region_counts: grouped.counts,
        region_ids,
    }
}

} // verus!
