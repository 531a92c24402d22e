//! The listing of a registry as a table of two aligned columns.

use crate::registry::{as_map, has_alias, lemma_entry_in_map, well_formed, Listing, Registry};
use crate::text::{append_run, run, texts};
use vstd::prelude::*;
use vstd::string::*;
use vstd::utf8::encode_utf8;

verus! {

/// The least width of the alias column.
pub const MIN_ALIAS_WIDTH: usize = 6;

/// The least width of the host column: that of its heading.
pub const MIN_HOST_WIDTH: usize = 9;

/// The number of blanks between the two columns.
pub const GAP: usize = 3;

/// The length of a text in bytes, as UTF-8.
pub open spec fn byte_len(text: Seq<char>) -> nat {
    encode_utf8(text).len()
}

/// The width of a column: the greatest of the given lengths, but at least
/// `floor`.
pub open spec fn column_width(floor: nat, lens: Seq<nat>) -> nat
    decreases lens.len(),
{
    if lens.len() == 0 {
        floor
    } else {
        let rest = column_width(floor, lens.drop_last());
        if lens.last() > rest {
            lens.last()
        } else {
            rest
        }
    }
}

/// The byte lengths of the aliases, in listing order.
pub open spec fn alias_lens(listing: Listing) -> Seq<nat> {
    Seq::new(listing.len(), |i: int| byte_len(listing[i].0))
}

/// The byte lengths of the remote hosts, in listing order.
pub open spec fn host_lens(listing: Listing) -> Seq<nat> {
    Seq::new(listing.len(), |i: int| byte_len(listing[i].1.host))
}

/// The width of the alias column.
pub open spec fn alias_width(listing: Listing) -> nat {
    column_width(MIN_ALIAS_WIDTH as nat, alias_lens(listing))
}

/// The width of the host column.
pub open spec fn host_width(listing: Listing) -> nat {
    column_width(MIN_HOST_WIDTH as nat, host_lens(listing))
}

/// A text followed by the blanks that fill it up to `width` characters; a
/// text that is as long or longer stays as it is.
pub open spec fn padded(text: Seq<char>, width: nat) -> Seq<char> {
    text + run(' ', if text.len() < width { (width - text.len()) as nat } else { 0 })
}

/// One line of the table: the left cell filled up to the column's width, the
/// gap, and the right cell.
pub open spec fn row(left: Seq<char>, right: Seq<char>, width: nat) -> Seq<char> {
    padded(left, width) + run(' ', GAP as nat) + right
}

/// The line of headings.
pub open spec fn header(listing: Listing) -> Seq<char> {
    row("Local"@, "Real Host"@, alias_width(listing))
}

/// The line of dashes under the headings: as wide as both columns and the
/// gap together.
pub open spec fn rule(listing: Listing) -> Seq<char> {
    run('-', alias_width(listing) + GAP as nat + host_width(listing))
}

/// The line for the `i`-th entry: its alias and its remote host.
pub open spec fn entry_row(listing: Listing, i: int) -> Seq<char> {
    row(listing[i].0, listing[i].1.host, alias_width(listing))
}

/// The whole table: the headings, the rule, and one line for each entry in
/// listing order.
pub open spec fn table(listing: Listing) -> Seq<Seq<char>> {
    seq![header(listing), rule(listing)] + Seq::new(
        listing.len(),
        |i: int| entry_row(listing, i),
    )
}

/// A column is as wide as its floor and as each of its cells, and no wider
/// than it has to be.
pub proof fn lemma_column_width(floor: nat, lens: Seq<nat>)
    ensures
        column_width(floor, lens) >= floor,
        forall|i: int| 0 <= i < lens.len() ==> lens[i] <= column_width(floor, lens),
        column_width(floor, lens) == floor || exists|i: int|
            0 <= i < lens.len() && lens[i] == column_width(floor, lens),
    decreases lens.len(),
{
    if lens.len() > 0 {
        let front = lens.drop_last();
        lemma_column_width(floor, front);
        assert forall|i: int| 0 <= i < lens.len() implies lens[i] <= column_width(floor, lens) by {
            if i < front.len() {
                assert(front[i] == lens[i]);
            }
        }
        if column_width(floor, lens) != floor && lens.last() <= column_width(floor, front) {
            let k = choose|k: int| 0 <= k < front.len() && front[k] == column_width(floor, front);
            assert(lens[k] == column_width(floor, lens));
        }
    }
}

/// The width of one more cell's column.
proof fn lemma_column_width_step(floor: nat, lens: Seq<nat>, i: int)
    requires
        0 <= i < lens.len(),
    ensures
        column_width(floor, lens.take(i + 1)) == if lens[i] > column_width(floor, lens.take(i)) {
            lens[i]
        } else {
            column_width(floor, lens.take(i))
        },
{
    assert(lens.take(i + 1).drop_last() =~= lens.take(i));
}

/// The width of the alias column of a registry.
fn alias_column(registry: &Registry) -> (width: usize)
    ensures
        width == alias_width(registry.listing()),
{
    let ghost lens = alias_lens(registry.listing());
    let mut width: usize = MIN_ALIAS_WIDTH;
    let mut i: usize = 0;
    while i < registry.len()
        invariant
            i <= registry.listing().len(),
            lens == alias_lens(registry.listing()),
            width == column_width(MIN_ALIAS_WIDTH as nat, lens.take(i as int)),
        decreases registry.listing().len() - i,
    {
        let alias = registry.entry(i).0;
        let len = alias.as_str().as_bytes().len();
        proof {
            lemma_column_width_step(MIN_ALIAS_WIDTH as nat, lens, i as int);
        }
        if len > width {
            width = len;
        }
        i = i + 1;
    }
    assert(lens.take(i as int) =~= lens);
    width
}

/// The width of the host column of a registry.
fn host_column(registry: &Registry) -> (width: usize)
    ensures
        width == host_width(registry.listing()),
{
    let ghost lens = host_lens(registry.listing());
    let mut width: usize = MIN_HOST_WIDTH;
    let mut i: usize = 0;
    while i < registry.len()
        invariant
            i <= registry.listing().len(),
            lens == host_lens(registry.listing()),
            width == column_width(MIN_HOST_WIDTH as nat, lens.take(i as int)),
        decreases registry.listing().len() - i,
    {
        let host = registry.entry(i).1;
        let len = host.host.as_str().as_bytes().len();
        proof {
            lemma_column_width_step(MIN_HOST_WIDTH as nat, lens, i as int);
        }
        if len > width {
            width = len;
        }
        i = i + 1;
    }
    assert(lens.take(i as int) =~= lens);
    width
}

/// Writes one line of the table.
fn write_row(left: &str, right: &str, width: usize) -> (line: String)
    ensures
        line@ == row(left@, right@, width as nat),
{
    proof {
        reveal_strlit(" ");
    }
    let mut line: String = String::from_str(left);
    let used = left.unicode_len();
    if used < width {
        append_run(&mut line, " ", width - used);
    }
    append_run(&mut line, " ", GAP);
    line.append(right);
    line
}

/// Writes the rule for columns of the given widths.
fn write_rule(left: usize, right: usize) -> (line: String)
    ensures
        line@ == run('-', left as nat + GAP as nat + right as nat),
{
    proof {
        reveal_strlit("-");
    }
    let mut line: String = String::new();
    append_run(&mut line, "-", left);
    append_run(&mut line, "-", GAP);
    append_run(&mut line, "-", right);
    line
}

/// Lays the registry out as a table: the headings, a rule of dashes, and
/// one line for each entry with its alias and its remote host.
pub fn host_table(registry: &Registry) -> (lines: Vec<String>)
    ensures
        texts(lines@) == table(registry.listing()),
{
    let left = alias_column(registry);
    let right = host_column(registry);
    let ghost listing = registry.listing();

    let mut lines: Vec<String> = Vec::new();
    lines.push(write_row("Local", "Real Host", left));
    lines.push(write_rule(left, right));

    let mut i: usize = 0;
    while i < registry.len()
        invariant
            listing == registry.listing(),
            left == alias_width(listing),
            i <= listing.len(),
            lines@.len() == i + 2,
            lines@[0]@ == header(listing),
            lines@[1]@ == rule(listing),
            forall|j: int| 0 <= j < i ==> (#[trigger] lines@[j + 2])@ == entry_row(listing, j),
        decreases listing.len() - i,
    {
        let entry = registry.entry(i);
        lines.push(write_row(entry.0.as_str(), entry.1.host.as_str(), left));
        i = i + 1;
    }
    assert(texts(lines@) =~= table(listing)) by {
        assert forall|k: int| 0 <= k < lines@.len() implies texts(lines@)[k] == table(listing)[k] by {
            if k >= 2 {
                assert(lines@[(k - 2) + 2]@ == entry_row(listing, k - 2));
            }
        }
    }
    lines
}

/// The table has the headings, the rule, and exactly one line for each
/// entry, which shows that entry's alias and remote host; no entry is left
/// out and, the aliases being distinct, none is shown twice. An empty
/// listing gives the headings and the rule alone.
pub proof fn lemma_table_rows(listing: Listing)
    requires
        well_formed(listing),
    ensures
        table(listing).len() == listing.len() + 2,
        table(listing)[0] == header(listing),
        table(listing)[1] == rule(listing),
        forall|i: int|
            0 <= i < listing.len() ==> #[trigger] table(listing)[i + 2] == row(
                listing[i].0,
                listing[i].1.host,
                alias_width(listing),
            ),
        forall|alias: Seq<char>| #[trigger]
            as_map(listing).contains_key(alias) ==> exists|i: int|
                0 <= i < listing.len() && (#[trigger] listing[i]).0 == alias && table(listing)[i + 2]
                    == row(alias, as_map(listing)[alias].host, alias_width(listing)),
        forall|i: int, j: int|
            0 <= i < listing.len() && 0 <= j < listing.len() && (#[trigger] listing[i]).0 == (
            #[trigger] listing[j]).0 ==> i == j,
{
    assert forall|alias: Seq<char>| #[trigger]
        as_map(listing).contains_key(alias) implies exists|i: int|
        0 <= i < listing.len() && (#[trigger] listing[i]).0 == alias && table(listing)[i + 2] == row(
            alias,
            as_map(listing)[alias].host,
            alias_width(listing),
        ) by {
        let i = choose|i: int| 0 <= i < listing.len() && (#[trigger] listing[i]).0 == alias;
        lemma_entry_in_map(listing, i);
    }
}

/// Every line shows its cells as they are: it starts with the left one and
/// ends with the right one.
pub proof fn lemma_row_shows_cells(left: Seq<char>, right: Seq<char>, width: nat)
    ensures
        row(left, right, width).len() >= left.len() + GAP + right.len(),
        row(left, right, width).subrange(0, left.len() as int) == left,
        row(left, right, width).subrange(
            row(left, right, width).len() - right.len(),
            row(left, right, width).len() as int,
        ) == right,
{
}

} // verus!
