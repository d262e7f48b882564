use vstd::prelude::*;

use crate::args::ListCompactArgs;
use crate::payload::Timestamp;
use crate::project::{decimal, decimal_text};
use crate::record::{opt_count, opt_text, or_na, PrivisionFileData, ProfileModel, UnwrapOrNa, NOT_AVAILABLE};
use crate::sort::{
    keys_view, lemma_ascending_order_bounds, positions_view, sort_key, sort_key_spec, sorted_order,
    sorted_positions, SortKey,
};

verus! {

/// Below this terminal width, long columns of the compact table are truncated.
pub const NARROW_WIDTH: usize = 200;

/// Characters kept of the entitlement app ID when truncating, the ellipsis included.
pub const ENTITLEMENT_BUDGET: usize = 30;

/// Characters kept of the team name when truncating, the ellipsis included.
pub const TEAM_BUDGET: usize = 20;

/// Characters kept of the UUID when truncating, the ellipsis included.
pub const UUID_BUDGET: usize = 12;

/// Ends a truncated text.
pub const ELLIPSIS: &'static str = "…";

/// Separates the app ID prefixes in the extended table.
pub const PREFIX_SEPARATOR: &'static str = ", ";

/// Start of the profile cell of the extended table.
pub const NAME_LABEL: &'static str = "Name: ";

/// Between the name and the file name in the profile cell of the extended table.
pub const FILE_LABEL: &'static str = "\n\nFile: ";

/// The calendar date (`YYYY-MM-DD`) of the instant `secs` seconds after the Unix epoch
/// in the time zone `offset` seconds east of UTC; empty where the instant or the
/// offset cannot be represented.
pub uninterp spec fn calendar_date(secs: int, offset: int) -> Seq<char>;

/// The last component of a path, where it has one.
pub uninterp spec fn file_name_of(path: Seq<char>) -> Option<Seq<char>>;

/// Relies on `chrono`: `DateTime::from_timestamp`, `FixedOffset::east_opt`, and
/// formatting with `%Y-%m-%d`.
#[verifier::external_body]
fn calendar_date_text(secs: i64, offset_secs: i32) -> (r: String)
    ensures
        r@ == calendar_date(secs as int, offset_secs as int),
{
    match (chrono::DateTime::from_timestamp(secs, 0), chrono::FixedOffset::east_opt(offset_secs)) {
        (Some(t), Some(zone)) => t.with_timezone(&zone).format("%Y-%m-%d").to_string(),
        _ => String::new(),
    }
}

/// Relies on `std::path::Path::file_name`: the last component, unless the path ends
/// in `..` or is a root or empty.
#[verifier::external_body]
fn file_name(path: &str) -> (r: Option<String>)
    ensures
        opt_text(r) == file_name_of(path@),
{
    std::path::Path::new(path).file_name().map(|n| n.to_string_lossy().into_owned())
}

pub open spec fn date_cell(d: Option<Timestamp>, offset: int) -> Seq<char> {
    match d {
        None => NOT_AVAILABLE@,
        Some(t) => calendar_date(t.secs as int, offset),
    }
}

pub open spec fn flag_cell(f: Option<bool>) -> Seq<char> {
    match f {
        None => NOT_AVAILABLE@,
        Some(true) => "Y"@,
        Some(false) => "N"@,
    }
}

pub open spec fn count_cell(c: Option<nat>) -> Seq<char> {
    match c {
        None => NOT_AVAILABLE@,
        Some(n) => decimal(n),
    }
}

/// A text cut to `budget` characters, the last of them an ellipsis, where it is
/// longer and truncation is on.
pub open spec fn fit(s: Seq<char>, budget: nat, truncate: bool) -> Seq<char> {
    if truncate && s.len() > budget {
        s.take(budget - 1) + ELLIPSIS@
    } else {
        s
    }
}

/// Truncation applies only where wrapping is not allowed and the terminal is narrow.
pub open spec fn should_truncate(allow_wrap: bool, width: nat) -> bool {
    !allow_wrap && width < NARROW_WIDTH
}

/// A date is marked as expired when it is not later than the present instant.
pub open spec fn is_expired(d: Option<Timestamp>, now: Timestamp) -> bool {
    d matches Some(t) && !now.before(t)
}

/// The cells of the compact table for one record, in column order: name, app ID
/// name, entitlement app ID, expiration date, managed, local provision, team name,
/// device count, UUID, directory kind.
pub open spec fn compact_cells_spec(p: ProfileModel, truncate: bool, offset: int) -> Seq<Seq<char>> {
    seq![
        or_na(p.name),
        or_na(p.app_id_name),
        fit(or_na(p.ent_app_id), ENTITLEMENT_BUDGET as nat, truncate),
        date_cell(p.exp_date, offset),
        flag_cell(p.xc_managed),
        flag_cell(p.local_provision),
        fit(or_na(p.team_name), TEAM_BUDGET as nat, truncate),
        count_cell(p.provisioned_devices),
        fit(or_na(p.uuid), UUID_BUDGET as nat, truncate),
        p.xc_kind.label_spec(),
    ]
}

pub open spec fn cells_view(cells: Seq<String>) -> Seq<Seq<char>> {
    cells.map_values(|c: String| c@)
}

/// The record a row of the listing carries, whether it was read or stands for a failure.
pub open spec fn row_record(row: Result<PrivisionFileData, PrivisionFileData>) -> PrivisionFileData {
    match row {
        Ok(p) => p,
        Err(p) => p,
    }
}

pub open spec fn row_keys(rows: Seq<Result<PrivisionFileData, PrivisionFileData>>, args: ListCompactArgs) -> Seq<
    crate::sort::SortKeyModel,
> {
    Seq::new(rows.len(), |i: int| sort_key_spec(row_record(rows[i])@, args.sort_by))
}

/// One line of the compact table.
#[derive(Debug, PartialEq)]
pub struct CompactRow {
    pub cells: Vec<String>,
    /// The expiration date is to be marked as past.
    pub expired: bool,
}

/// The text of a possibly missing date.
pub fn date_text(d: &Option<Timestamp>, utc_offset_secs: i32) -> (r: String)
    ensures
        r@ == date_cell(*d, utc_offset_secs as int),
{
    match d {
        None => NOT_AVAILABLE.to_owned(),
        Some(t) => calendar_date_text(t.secs, utc_offset_secs),
    }
}

/// `Y`, `N`, or the marker of a missing value.
pub fn flag_text(f: Option<bool>) -> (r: String)
    ensures
        r@ == flag_cell(f),
{
    match f {
        None => NOT_AVAILABLE.to_owned(),
        Some(true) => "Y".to_owned(),
        Some(false) => "N".to_owned(),
    }
}

/// The decimal count, or the marker of a missing value.
pub fn count_text(c: Option<usize>) -> (r: String)
    ensures
        r@ == count_cell(opt_count(c)),
{
    match c {
        None => NOT_AVAILABLE.to_owned(),
        Some(n) => decimal_text(n),
    }
}

/// Cuts a text to `budget` characters, ending in an ellipsis, where truncation is on
/// and the text is longer.
pub fn fit_text(s: String, budget: usize, truncate: bool) -> (r: String)
    requires
        budget >= 1,
    ensures
        r@ == fit(s@, budget as nat, truncate),
{
    if truncate {
        let n = s.as_str().unicode_len();
        if n > budget {
            let head = s.as_str().substring_char(0, budget - 1).to_owned();
            return head.concat(ELLIPSIS);
        }
    }
    s
}

/// The compact-table row of one record.
pub fn compact_row(p: &PrivisionFileData, truncate: bool, now: &Timestamp, utc_offset_secs: i32) -> (r:
    CompactRow)
    ensures
        cells_view(r.cells@) == compact_cells_spec(p@, truncate, utc_offset_secs as int),
        r.expired == is_expired(p.exp_date, *now),
{
    let mut cells: Vec<String> = Vec::new();
    cells.push(p.name.unwrap_or_na());
    cells.push(p.app_id_name.unwrap_or_na());
    cells.push(fit_text(p.ent_app_id.unwrap_or_na(), ENTITLEMENT_BUDGET, truncate));
    cells.push(date_text(&p.exp_date, utc_offset_secs));
    cells.push(flag_text(p.xc_managed));
    cells.push(flag_text(p.local_provision));
    cells.push(fit_text(p.team_name.unwrap_or_na(), TEAM_BUDGET, truncate));
    cells.push(count_text(p.provisioned_devices));
    cells.push(fit_text(p.uuid.unwrap_or_na(), UUID_BUDGET, truncate));
    cells.push(p.xc_kind.label());
    let expired = match &p.exp_date {
        Some(t) => !now.is_before(t),
        None => false,
    };
    assert(cells_view(cells@) =~= compact_cells_spec(p@, truncate, utc_offset_secs as int));
    CompactRow { cells, expired }
}

/// The record of a row of the listing.
pub fn record_of(row: &Result<PrivisionFileData, PrivisionFileData>) -> (r: &PrivisionFileData)
    ensures
        *r == row_record(*row),
{
    match row {
        Ok(p) => p,
        Err(p) => p,
    }
}

/// The rows of the compact table: every record, failures included, sorted stably by
/// the chosen column in the chosen order, with long columns truncated where the
/// terminal is narrower than [`NARROW_WIDTH`] and wrapping is not allowed.
pub fn compact_table_rows(
    profiles: &Vec<Result<PrivisionFileData, PrivisionFileData>>,
    args: &ListCompactArgs,
    now: &Timestamp,
    utc_offset_secs: i32,
    terminal_width: usize,
) -> (r: Vec<CompactRow>)
    ensures
        r@.len() == profiles@.len(),
        forall|k: int|
            0 <= k < r@.len() ==> {
                let p = row_record(
                    profiles@[sorted_order(row_keys(profiles@, *args), args.sort_order)[k]],
                );
                &&& cells_view((#[trigger] r@[k]).cells@) == compact_cells_spec(
                    p@,
                    should_truncate(args.allow_wrap, terminal_width as nat),
                    utc_offset_secs as int,
                )
                &&& r@[k].expired == is_expired(p.exp_date, *now)
            },
{
    let truncate = !args.allow_wrap && terminal_width < NARROW_WIDTH;
    let mut keys: Vec<SortKey> = Vec::new();
    let mut i: usize = 0;
    while i < profiles.len()
        invariant
            i <= profiles@.len(),
            keys@.len() == i,
            forall|j: int|
                0 <= j < i ==> (#[trigger] keys@[j])@ == sort_key_spec(
                    row_record(profiles@[j])@,
                    args.sort_by,
                ),
        decreases profiles@.len() - i,
    {
        keys.push(sort_key(record_of(&profiles[i]), args.sort_by));
        i += 1;
    }
    assert(keys_view(keys@) =~= row_keys(profiles@, *args));
    let order = sorted_positions(&keys, args.sort_order);
    let ghost ks = row_keys(profiles@, *args);
    proof {
        lemma_ascending_order_bounds(ks, ks.len());
    }
    let ghost asc = crate::sort::ascending_order(ks, ks.len());
    assert(ks.len() == profiles@.len());
    assert(positions_view(order@).len() == order@.len());
    assert forall|k: int| 0 <= k < order@.len() implies #[trigger] order@[k] < profiles@.len() by {
        assert(positions_view(order@)[k] == order@[k] as int);
        if args.sort_order == crate::args::SortOrder::Desc {
            assert(asc.len() > 0);
            assert(asc.reverse()[k] == asc[asc.len() - 1 - k]);
        }
    }
    let mut rows: Vec<CompactRow> = Vec::new();
    let mut k: usize = 0;
    while k < order.len()
        invariant
            k <= order@.len(),
            order@.len() == profiles@.len(),
            rows@.len() == k,
            truncate == should_truncate(args.allow_wrap, terminal_width as nat),
            positions_view(order@) == sorted_order(row_keys(profiles@, *args), args.sort_order),
            forall|j: int| 0 <= j < order@.len() ==> #[trigger] order@[j] < profiles@.len(),
            forall|j: int|
                0 <= j < k ==> {
                    let p = row_record(
                        profiles@[sorted_order(row_keys(profiles@, *args), args.sort_order)[j]],
                    );
                    &&& cells_view((#[trigger] rows@[j]).cells@) == compact_cells_spec(
                        p@,
                        truncate,
                        utc_offset_secs as int,
                    )
                    &&& rows@[j].expired == is_expired(p.exp_date, *now)
                },
        decreases order@.len() - k,
    {
        assert(positions_view(order@)[k as int] == order@[k as int] as int);
        let row = compact_row(record_of(&profiles[order[k]]), truncate, now, utc_offset_secs);
        rows.push(row);
        k += 1;
    }
    rows
}

/// Texts joined with a separator between each two.
pub open spec fn join(parts: Seq<Seq<char>>, sep: Seq<char>) -> Seq<char>
    decreases parts.len(),
{
    if parts.len() == 0 {
        Seq::empty()
    } else if parts.len() == 1 {
        parts[0]
    } else {
        join(parts.drop_last(), sep) + sep + parts.last()
    }
}

/// The app ID prefixes joined by commas, or the marker of a missing value.
pub open spec fn prefixes_cell(o: Option<Seq<Seq<char>>>) -> Seq<char> {
    match o {
        None => NOT_AVAILABLE@,
        Some(parts) => join(parts, PREFIX_SEPARATOR@),
    }
}

/// The name and the file name of a profile.
pub open spec fn profile_cell(p: ProfileModel) -> Seq<char> {
    NAME_LABEL@ + or_na(p.name) + FILE_LABEL@ + or_na(file_name_of(p.file_path))
}

/// The cells of the extended table for one record, the display document aside:
/// profile, expiration date, managed, app ID prefixes.
pub open spec fn detailed_cells_spec(p: ProfileModel, offset: int) -> Seq<Seq<char>> {
    seq![
        profile_cell(p),
        date_cell(p.exp_date, offset),
        flag_cell(p.xc_managed),
        prefixes_cell(p.app_id_prefixes),
    ]
}

/// Joins texts with a separator between each two.
pub fn join_texts(parts: &Vec<String>, sep: &str) -> (r: String)
    ensures
        r@ == join(parts@.map_values(|s: String| s@), sep@),
{
    let ghost all = parts@.map_values(|s: String| s@);
    if parts.len() == 0 {
        return String::new();
    }
    let mut out = parts[0].clone();
    let mut i: usize = 1;
    assert(all.take(1).drop_last().len() == 0);
    while i < parts.len()
        invariant
            1 <= i <= parts@.len(),
            all == parts@.map_values(|s: String| s@),
            out@ == join(all.take(i as int), sep@),
        decreases parts@.len() - i,
    {
        assert(all.take(i + 1).drop_last() =~= all.take(i as int));
        out.append(sep);
        out.append(parts[i].as_str());
        i += 1;
    }
    assert(all.take(i as int) =~= all);
    out
}

/// The cells of the extended table for one record, the display document aside.
pub fn detailed_cells(p: &PrivisionFileData, utc_offset_secs: i32) -> (r: Vec<String>)
    ensures
        cells_view(r@) == detailed_cells_spec(p@, utc_offset_secs as int),
{
    let profile = NAME_LABEL.to_owned().concat(p.name.unwrap_or_na().as_str()).concat(FILE_LABEL).concat(
        file_name(p.file_path.as_str()).unwrap_or_na().as_str(),
    );
    let prefixes = match &p.app_id_prefixes {
        None => NOT_AVAILABLE.to_owned(),
        Some(parts) => join_texts(parts, PREFIX_SEPARATOR),
    };
    let mut cells: Vec<String> = Vec::new();
    cells.push(profile);
    cells.push(date_text(&p.exp_date, utc_offset_secs));
    cells.push(flag_text(p.xc_managed));
    cells.push(prefixes);
    assert(cells_view(cells@) =~= detailed_cells_spec(p@, utc_offset_secs as int));
    cells
}

/// Sorting the records by name in descending order gives the order of sorting them
/// by name in ascending order, reversed.
pub proof fn name_descending_is_reversed_ascending(
    rows: Seq<Result<PrivisionFileData, PrivisionFileData>>,
    allow_wrap: bool,
)
    ensures
        ({
            let asc = ListCompactArgs {
                sort_by: crate::args::CompactSortBy::Name,
                sort_order: crate::args::SortOrder::Asc,
                allow_wrap,
            };
            let desc = ListCompactArgs { sort_order: crate::args::SortOrder::Desc, ..asc };
            sorted_order(row_keys(rows, desc), desc.sort_order) == sorted_order(
                row_keys(rows, asc),
                asc.sort_order,
            ).reverse()
        }),
{
    let asc = ListCompactArgs {
        sort_by: crate::args::CompactSortBy::Name,
        sort_order: crate::args::SortOrder::Asc,
        allow_wrap,
    };
    let desc = ListCompactArgs { sort_order: crate::args::SortOrder::Desc, ..asc };
    assert(row_keys(rows, desc) =~= row_keys(rows, asc));
    crate::sort::descending_is_reversed_ascending(row_keys(rows, asc));
}

/// In ascending order the listing holds every record once, their keys never
/// decrease, and records with equal keys keep the order in which they came.
pub proof fn ascending_listing_is_a_stable_sort(
    rows: Seq<Result<PrivisionFileData, PrivisionFileData>>,
    args: ListCompactArgs,
)
    requires
        args.sort_order == crate::args::SortOrder::Asc,
    ensures
        crate::sort::orders_keys(
            row_keys(rows, args),
            sorted_order(row_keys(rows, args), args.sort_order),
            rows.len(),
        ),
{
    let keys = row_keys(rows, args);
    match args.sort_by {
        crate::args::CompactSortBy::ExpirationDate => {
            assert(forall|i: int| 0 <= i < keys.len() ==> (#[trigger] keys[i]) is Date);
        },
        _ => {
            assert(forall|i: int| 0 <= i < keys.len() ==> (#[trigger] keys[i]) is Text);
        },
    }
    crate::sort::ascending_order_is_a_stable_sort(keys, keys.len());
}

} // verus!
