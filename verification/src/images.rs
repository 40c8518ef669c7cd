//! Rows and columns of the image table.
//!
//! A row stands for one container image: its identifier, its display
//! name and its size in bytes. The columns are a closed set; each gives
//! a projection of a row to display text and a total order over rows
//! used when the operator sorts by that column.

use vstd::prelude::*;

verus! {

use core::cmp::Ordering;
use vstd::string::StrSliceExecFns;
use vstd::string::StringExecFns;
use crate::utils::humanize_size;
use crate::utils::humanize_spec;

/// A column of the image table.
#[derive(Copy, Clone, PartialEq, Eq, Hash, Structural)]
pub enum ImageTableColumn {
    ID,
    Name,
    Size,
}

/// One image, as the table shows it.
#[derive(Clone, Debug)]
pub struct ImageTableRow {
    pub id: String,
    pub name: String,
    pub size: u64,
}

/// The header text of a column.
pub open spec fn column_title(column: ImageTableColumn) -> Seq<char> {
    match column {
        ImageTableColumn::ID => seq!['I', 'D'],
        ImageTableColumn::Name => seq!['N', 'a', 'm', 'e'],
        ImageTableColumn::Size => seq!['S', 'i', 'z', 'e'],
    }
}

/// The display text of a row under a column: the identifier, the name,
/// or the human-readable size.
pub open spec fn column_text(row: ImageTableRow, column: ImageTableColumn) -> Seq<char> {
    match column {
        ImageTableColumn::ID => row.id@,
        ImageTableColumn::Name => row.name@,
        ImageTableColumn::Size => humanize_spec(row.size, None),
    }
}

/// Lexicographic order over character sequences, by code point.
pub open spec fn seq_cmp(a: Seq<char>, b: Seq<char>) -> Ordering
    decreases a.len(),
{
    if a.len() == 0 && b.len() == 0 {
        Ordering::Equal
    } else if a.len() == 0 {
        Ordering::Less
    } else if b.len() == 0 {
        Ordering::Greater
    } else if a[0] < b[0] {
        Ordering::Less
    } else if a[0] > b[0] {
        Ordering::Greater
    } else {
        seq_cmp(a.skip(1), b.skip(1))
    }
}

/// How two rows compare under a column: by identifier, by name, or by
/// size in bytes.
pub open spec fn row_cmp(a: ImageTableRow, b: ImageTableRow, column: ImageTableColumn) -> Ordering {
    match column {
        ImageTableColumn::ID => seq_cmp(a.id@, b.id@),
        ImageTableColumn::Name => seq_cmp(a.name@, b.name@),
        ImageTableColumn::Size => if a.size < b.size {
            Ordering::Less
        } else if a.size > b.size {
            Ordering::Greater
        } else {
            Ordering::Equal
        },
    }
}

proof fn lemma_seq_cmp_step(a: Seq<char>, b: Seq<char>, i: int)
    requires
        0 <= i < a.len(),
        i < b.len(),
        a[i] == b[i],
    ensures
        seq_cmp(a.skip(i), b.skip(i)) == seq_cmp(a.skip(i + 1), b.skip(i + 1)),
{
    let sa = a.skip(i);
    let sb = b.skip(i);
    assert(sa[0] == a[i]);
    assert(sb[0] == b[i]);
    assert(sa.skip(1) =~= a.skip(i + 1));
    assert(sb.skip(1) =~= b.skip(i + 1));
}

fn lex_cmp(a: &str, b: &str) -> (r: Ordering)
    ensures
        r == seq_cmp(a@, b@),
{
    let alen = a.unicode_len();
    let blen = b.unicode_len();
    let mut i: usize = 0;
    proof {
        assert(a@.skip(0) =~= a@);
        assert(b@.skip(0) =~= b@);
    }
    loop
        invariant
            i <= alen,
            i <= blen,
            alen == a@.len(),
            blen == b@.len(),
            seq_cmp(a@, b@) == seq_cmp(a@.skip(i as int), b@.skip(i as int)),
        ensures
            seq_cmp(a@, b@) == seq_cmp(a@.skip(i as int), b@.skip(i as int)),
            i == alen || i == blen || a@[i as int] != b@[i as int],
        decreases alen - i,
    {
        if i == alen || i == blen {
            break ;
        }
        let ca = a.get_char(i);
        let cb = b.get_char(i);
        if ca != cb {
            break ;
        }
        proof {
            lemma_seq_cmp_step(a@, b@, i as int);
        }
        i = i + 1;
    }
    proof {
        assert(a@.skip(i as int).len() == a@.len() - i);
        assert(b@.skip(i as int).len() == b@.len() - i);
    }
    if i == alen && i == blen {
        Ordering::Equal
    } else if i == alen {
        Ordering::Less
    } else if i == blen {
        Ordering::Greater
    } else {
        let ca = a.get_char(i);
        let cb = b.get_char(i);
        proof {
            assert(a@.skip(i as int)[0] == a@[i as int]);
            assert(b@.skip(i as int)[0] == b@[i as int]);
        }
        if ca < cb {
            Ordering::Less
        } else {
            Ordering::Greater
        }
    }
}

impl ImageTableColumn {
    /// The header text of the column.
    pub fn as_str(&self) -> (r: &'static str)
        ensures
            r@ == column_title(*self),
    {
        let r: &'static str = match *self {
            ImageTableColumn::ID => "ID",
            ImageTableColumn::Name => "Name",
            ImageTableColumn::Size => "Size",
        };
        proof {
            reveal_strlit("ID");
            reveal_strlit("Name");
            reveal_strlit("Size");
            assert(r@ =~= column_title(*self));
        }
        r
    }
}

impl ImageTableRow {
    /// The display text of this row under `column`. The text is a
    /// function of the row and the column alone, so repeated calls
    /// return the same string.
    pub fn to_column(&self, column: ImageTableColumn) -> (r: String)
        ensures
            r@ == column_text(*self, column),
    {
        match column {
            ImageTableColumn::ID => self.id.clone(),
            ImageTableColumn::Name => self.name.clone(),
            ImageTableColumn::Size => humanize_size(self.size, None),
        }
    }

    /// How this row compares to `other` when the table is sorted by
    /// `column`.
    pub fn cmp(&self, other: &Self, column: ImageTableColumn) -> (r: Ordering)
        ensures
            r == row_cmp(*self, *other, column),
    {
        match column {
            ImageTableColumn::ID => lex_cmp(self.id.as_str(), other.id.as_str()),
            ImageTableColumn::Name => lex_cmp(self.name.as_str(), other.name.as_str()),
            ImageTableColumn::Size => if self.size < other.size {
                Ordering::Less
            } else if self.size > other.size {
                Ordering::Greater
            } else {
                Ordering::Equal
            },
        }
    }
}

/// The first `n` of the given texts, joined with commas.
pub open spec fn joined_prefix(tags: Seq<Seq<char>>, n: int) -> Seq<char>
    decreases n,
{
    if n <= 0 {
        Seq::empty()
    } else if n == 1 {
        tags[0]
    } else {
        joined_prefix(tags, n - 1) + seq![','] + tags[n - 1]
    }
}

/// All the given texts, joined with commas.
pub open spec fn joined_tags(tags: Seq<Seq<char>>) -> Seq<char> {
    joined_prefix(tags, tags.len() as int)
}

/// Joins an image's repository tags into the one display name the
/// table shows: the tags in order, separated by commas; empty when
/// there are none.
pub fn join_tags(tags: &Vec<String>) -> (r: String)
    ensures
        r@ == joined_tags(tags@.map_values(|t: String| t@)),
{
    let ghost m = tags@.map_values(|t: String| t@);
    let mut s = String::from_str("");
    proof {
        reveal_strlit("");
        assert(s@ =~= joined_prefix(m, 0));
    }
    let mut i: usize = 0;
    while i < tags.len()
        invariant
            i <= tags.len(),
            m == tags@.map_values(|t: String| t@),
            s@ == joined_prefix(m, i as int),
        decreases tags.len() - i,
    {
        if i > 0 {
            s.append(",");
            proof {
                reveal_strlit(",");
            }
        } else {
            proof {
                assert(s@ =~= Seq::<char>::empty());
            }
        }
        s.append(tags[i].as_str());
        proof {
            assert(m[i as int] == tags@[i as int]@);
            if i == 0 {
                assert(s@ =~= joined_prefix(m, 1));
            } else {
                assert(s@ =~= joined_prefix(m, i + 1));
            }
        }
        i = i + 1;
    }
    s
}

proof fn lemma_seq_cmp_equal_iff(a: Seq<char>, b: Seq<char>)
    ensures
        seq_cmp(a, b) == Ordering::Equal <==> a == b,
    decreases a.len(),
{
    if a.len() == 0 && b.len() == 0 {
        assert(a =~= b);
    } else if a.len() == 0 || b.len() == 0 {
        // The lengths differ, so the sequences do; the comparison is
        // not Equal in either direction.
    } else if a[0] == b[0] {
        lemma_seq_cmp_equal_iff(a.skip(1), b.skip(1));
        if seq_cmp(a, b) == Ordering::Equal {
            assert forall|i: int| 0 <= i < a.len() implies a[i] == b[i] by {
                if i > 0 {
                    assert(a.skip(1)[i - 1] == a[i]);
                    assert(b.skip(1)[i - 1] == b[i]);
                }
            }
            assert(a =~= b);
        }
        if a == b {
            assert(a.skip(1) =~= b.skip(1));
        }
    }
}

proof fn lemma_seq_cmp_flip(a: Seq<char>, b: Seq<char>)
    ensures
        seq_cmp(a, b) == Ordering::Less <==> seq_cmp(b, a) == Ordering::Greater,
        seq_cmp(a, b) == Ordering::Equal <==> seq_cmp(b, a) == Ordering::Equal,
    decreases a.len(),
{
    if a.len() > 0 && b.len() > 0 {
        lemma_seq_cmp_flip(a.skip(1), b.skip(1));
    }
}

proof fn lemma_seq_cmp_less_trans(a: Seq<char>, b: Seq<char>, c: Seq<char>)
    requires
        seq_cmp(a, b) == Ordering::Less,
        seq_cmp(b, c) == Ordering::Less,
    ensures
        seq_cmp(a, c) == Ordering::Less,
    decreases a.len(),
{
    if a.len() > 0 {
        if a[0] == c[0] {
            lemma_seq_cmp_less_trans(a.skip(1), b.skip(1), c.skip(1));
        }
    }
}

proof fn lemma_seq_cmp_not_greater_trans(a: Seq<char>, b: Seq<char>, c: Seq<char>)
    requires
        seq_cmp(a, b) != Ordering::Greater,
        seq_cmp(b, c) != Ordering::Greater,
    ensures
        seq_cmp(a, c) != Ordering::Greater,
{
    lemma_seq_cmp_equal_iff(a, b);
    lemma_seq_cmp_equal_iff(b, c);
    lemma_seq_cmp_equal_iff(a, c);
    if seq_cmp(a, b) == Ordering::Less && seq_cmp(b, c) == Ordering::Less {
        lemma_seq_cmp_less_trans(a, b, c);
    }
}

/// Each column's comparator orders any two rows one way or the other:
/// a row below another in one direction is above it in the other, and
/// the comparison is even-handed in the equal case.
pub proof fn lemma_row_cmp_antisymmetric(a: ImageTableRow, b: ImageTableRow, column: ImageTableColumn)
    ensures
        row_cmp(a, b, column) == Ordering::Less <==> row_cmp(b, a, column) == Ordering::Greater,
        row_cmp(a, b, column) == Ordering::Equal <==> row_cmp(b, a, column) == Ordering::Equal,
{
    match column {
        ImageTableColumn::ID => lemma_seq_cmp_flip(a.id@, b.id@),
        ImageTableColumn::Name => lemma_seq_cmp_flip(a.name@, b.name@),
        ImageTableColumn::Size => {},
    }
}

/// Every row compares equal to itself under every column.
pub proof fn lemma_row_cmp_reflexive(a: ImageTableRow, column: ImageTableColumn)
    ensures
        row_cmp(a, a, column) == Ordering::Equal,
{
    match column {
        ImageTableColumn::ID => lemma_seq_cmp_equal_iff(a.id@, a.id@),
        ImageTableColumn::Name => lemma_seq_cmp_equal_iff(a.name@, a.name@),
        ImageTableColumn::Size => {},
    }
}

/// Each column's comparator is transitive, so it is a total order and
/// sorting by it is well defined.
pub proof fn lemma_row_cmp_transitive(
    a: ImageTableRow,
    b: ImageTableRow,
    c: ImageTableRow,
    column: ImageTableColumn,
)
    requires
        row_cmp(a, b, column) != Ordering::Greater,
        row_cmp(b, c, column) != Ordering::Greater,
    ensures
        row_cmp(a, c, column) != Ordering::Greater,
{
    match column {
        ImageTableColumn::ID => lemma_seq_cmp_not_greater_trans(a.id@, b.id@, c.id@),
        ImageTableColumn::Name => lemma_seq_cmp_not_greater_trans(a.name@, b.name@, c.name@),
        ImageTableColumn::Size => {},
    }
}

/// Under the size column, rows are ordered exactly as their byte
/// counts are: the comparison never contradicts the sizes, so the
/// size projection is monotonically non-decreasing along the sort.
pub proof fn lemma_size_order_matches_bytes(a: ImageTableRow, b: ImageTableRow)
    ensures
        a.size <= b.size <==> row_cmp(a, b, ImageTableColumn::Size) != Ordering::Greater,
        a.size == b.size <==> row_cmp(a, b, ImageTableColumn::Size) == Ordering::Equal,
{
}

} // verus!
