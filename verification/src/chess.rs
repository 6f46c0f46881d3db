//! Piece taxonomy: the six chess piece kinds, their colored variants, and
//! the canonical asset file name derived from each variant.

use core::cmp::Ordering;
use vstd::prelude::*;

verus! {

/// The six chess piece kinds.
///
/// The declaration order (Bishop, Knight, Pawn, Rook, Queen, King) is the
/// enumeration order used by [`ChessPieceKind::kinds`]; it is distinct from
/// the comparison rank given by [`ChessPieceKind::rank`].
#[derive(Copy, Clone, Debug, PartialEq, Eq, Structural)]
pub enum ChessPieceKind {
    /// Bishop - moves on diagonals.
    Bishop,
    /// Knight - moves in an L shape.
    Knight,
    /// Pawn - moves towards the enemy side.
    Pawn,
    /// Rook - moves up, down, left and right.
    Rook,
    /// Queen - combines bishop and rook.
    Queen,
    /// King - moves like the queen, one tile at a time.
    King,
}

impl ChessPieceKind {
    /// The fixed comparison rank of a kind: Pawn 0, Knight 1, Bishop 2,
    /// Rook 3, Queen 4, King 5. The rank orders pieces; it does not drive
    /// enumeration, which follows declaration order instead.
    pub open spec fn spec_rank(self) -> int {
        match self {
            ChessPieceKind::Pawn => 0,
            ChessPieceKind::Knight => 1,
            ChessPieceKind::Bishop => 2,
            ChessPieceKind::Rook => 3,
            ChessPieceKind::Queen => 4,
            ChessPieceKind::King => 5,
        }
    }

    /// Comparison rank of this kind.
    pub fn rank(self) -> (r: u8)
        ensures
            r as int == self.spec_rank(),
    {
        match self {
            ChessPieceKind::Pawn => 0,
            ChessPieceKind::Knight => 1,
            ChessPieceKind::Bishop => 2,
            ChessPieceKind::Rook => 3,
            ChessPieceKind::Queen => 4,
            ChessPieceKind::King => 5,
        }
    }

    /// The six kinds in declaration order.
    pub open spec fn spec_kinds() -> Seq<ChessPieceKind> {
        seq![
            ChessPieceKind::Bishop,
            ChessPieceKind::Knight,
            ChessPieceKind::Pawn,
            ChessPieceKind::Rook,
            ChessPieceKind::Queen,
            ChessPieceKind::King,
        ]
    }

    /// All six kinds, in declaration order.
    pub fn kinds() -> (r: Vec<ChessPieceKind>)
        ensures
            r@ == Self::spec_kinds(),
    {
        let mut v: Vec<ChessPieceKind> = Vec::new();
        v.push(ChessPieceKind::Bishop);
        v.push(ChessPieceKind::Knight);
        v.push(ChessPieceKind::Pawn);
        v.push(ChessPieceKind::Rook);
        v.push(ChessPieceKind::Queen);
        v.push(ChessPieceKind::King);
        proof {
            assert(v@ =~= Self::spec_kinds());
        }
        v
    }

    /// The capitalized English name of a kind.
    pub open spec fn spec_display_name(self) -> Seq<char> {
        match self {
            ChessPieceKind::Bishop => "Bishop"@,
            ChessPieceKind::Knight => "Knight"@,
            ChessPieceKind::Pawn => "Pawn"@,
            ChessPieceKind::Rook => "Rook"@,
            ChessPieceKind::Queen => "Queen"@,
            ChessPieceKind::King => "King"@,
        }
    }

    /// The lowercase English name of a kind, used in asset file names.
    pub open spec fn spec_lower_name(self) -> Seq<char> {
        match self {
            ChessPieceKind::Bishop => "bishop"@,
            ChessPieceKind::Knight => "knight"@,
            ChessPieceKind::Pawn => "pawn"@,
            ChessPieceKind::Rook => "rook"@,
            ChessPieceKind::Queen => "queen"@,
            ChessPieceKind::King => "king"@,
        }
    }

    /// The capitalized English name of this kind.
    pub fn to_display_name(self) -> (r: &'static str)
        ensures
            r@ == self.spec_display_name(),
    {
        match self {
            ChessPieceKind::Bishop => "Bishop",
            ChessPieceKind::Knight => "Knight",
            ChessPieceKind::Pawn => "Pawn",
            ChessPieceKind::Rook => "Rook",
            ChessPieceKind::Queen => "Queen",
            ChessPieceKind::King => "King",
        }
    }

    /// The lowercase English name of this kind.
    pub fn to_lower_name(self) -> (r: &'static str)
        ensures
            r@ == self.spec_lower_name(),
    {
        match self {
            ChessPieceKind::Bishop => "bishop",
            ChessPieceKind::Knight => "knight",
            ChessPieceKind::Pawn => "pawn",
            ChessPieceKind::Rook => "rook",
            ChessPieceKind::Queen => "queen",
            ChessPieceKind::King => "king",
        }
    }
}

/// Error raised when a string names no chess piece kind.
#[derive(Debug, PartialEq, Eq)]
pub enum ChessPieceKindParseError {
    /// No kind matches; carries the normalized (trimmed, lowercased) input.
    FailedMatch(String),
}

/// Whitespace as the parser's normalization removes it: the characters
/// with the Unicode `White_Space` property.
pub open spec fn spec_is_space(c: char) -> bool {
    c == ' ' || c == '\t' || c == '\n' || c == '\r' || c == '\u{000B}' || c == '\u{000C}'
        || c == '\u{0085}' || c == '\u{00A0}' || c == '\u{1680}' || ('\u{2000}' <= c
        && c <= '\u{200A}') || c == '\u{2028}' || c == '\u{2029}' || c == '\u{202F}'
        || c == '\u{205F}' || c == '\u{3000}'
}

/// ASCII lowercasing of a single character; other characters are kept.
pub open spec fn spec_lower_char(c: char) -> char {
    match c {
        'A' => 'a',
        'B' => 'b',
        'C' => 'c',
        'D' => 'd',
        'E' => 'e',
        'F' => 'f',
        'G' => 'g',
        'H' => 'h',
        'I' => 'i',
        'J' => 'j',
        'K' => 'k',
        'L' => 'l',
        'M' => 'm',
        'N' => 'n',
        'O' => 'o',
        'P' => 'p',
        'Q' => 'q',
        'R' => 'r',
        'S' => 's',
        'T' => 't',
        'U' => 'u',
        'V' => 'v',
        'W' => 'w',
        'X' => 'x',
        'Y' => 'y',
        'Z' => 'z',
        _ => c,
    }
}

/// The input with leading whitespace removed.
pub open spec fn spec_trim_front(s: Seq<char>) -> Seq<char>
    decreases s.len(),
{
    if s.len() > 0 && spec_is_space(s[0]) {
        spec_trim_front(s.drop_first())
    } else {
        s
    }
}

/// The input with trailing whitespace removed.
pub open spec fn spec_trim_back(s: Seq<char>) -> Seq<char>
    decreases s.len(),
{
    if s.len() > 0 && spec_is_space(s[s.len() - 1]) {
        spec_trim_back(s.drop_last())
    } else {
        s
    }
}

/// Parser normalization: trim whitespace on both ends, then lowercase.
pub open spec fn spec_normalize(s: Seq<char>) -> Seq<char> {
    spec_trim_back(spec_trim_front(s)).map_values(|c: char| spec_lower_char(c))
}

/// The kind named by an already-normalized string, if any.
pub open spec fn spec_kind_of_name(n: Seq<char>) -> Option<ChessPieceKind> {
    if n == "bishop"@ {
        Some(ChessPieceKind::Bishop)
    } else if n == "knight"@ {
        Some(ChessPieceKind::Knight)
    } else if n == "pawn"@ {
        Some(ChessPieceKind::Pawn)
    } else if n == "queen"@ {
        Some(ChessPieceKind::Queen)
    } else if n == "king"@ {
        Some(ChessPieceKind::King)
    } else if n == "rook"@ {
        Some(ChessPieceKind::Rook)
    } else {
        None
    }
}

/// What parsing a string yields: the kind its normalization names, or the
/// normalization itself as the rejected input.
pub open spec fn spec_parse(s: Seq<char>) -> Result<ChessPieceKind, Seq<char>> {
    match spec_kind_of_name(spec_normalize(s)) {
        Some(k) => Ok(k),
        None => Err(spec_normalize(s)),
    }
}

impl ChessPieceKind {
    /// Parses a piece kind from a case-insensitive, whitespace-trimmed
    /// English name; any other input is rejected with the normalized
    /// string.
    pub fn parse(value: &str) -> (r: Result<ChessPieceKind, ChessPieceKindParseError>)
        ensures
            r matches Ok(k) ==> spec_parse(value@) == Ok::<ChessPieceKind, Seq<char>>(k),
            r matches Err(e) ==> e matches ChessPieceKindParseError::FailedMatch(m)
                && spec_parse(value@) == Err::<ChessPieceKind, Seq<char>>(m@),
    {
        let norm = normalize(value);
        if crate::text::str_eq(norm.as_str(), "bishop") {
            Ok(ChessPieceKind::Bishop)
        } else if crate::text::str_eq(norm.as_str(), "knight") {
            Ok(ChessPieceKind::Knight)
        } else if crate::text::str_eq(norm.as_str(), "pawn") {
            Ok(ChessPieceKind::Pawn)
        } else if crate::text::str_eq(norm.as_str(), "queen") {
            Ok(ChessPieceKind::Queen)
        } else if crate::text::str_eq(norm.as_str(), "king") {
            Ok(ChessPieceKind::King)
        } else if crate::text::str_eq(norm.as_str(), "rook") {
            Ok(ChessPieceKind::Rook)
        } else {
            Err(ChessPieceKindParseError::FailedMatch(norm))
        }
    }
}

/// Whether a character is whitespace for the parser's normalization.
fn is_space(c: char) -> (r: bool)
    ensures
        r == spec_is_space(c),
{
    c == ' ' || c == '\t' || c == '\n' || c == '\r' || c == '\u{000B}' || c == '\u{000C}'
        || c == '\u{0085}' || c == '\u{00A0}' || c == '\u{1680}' || ('\u{2000}' <= c
        && c <= '\u{200A}') || c == '\u{2028}' || c == '\u{2029}' || c == '\u{202F}'
        || c == '\u{205F}' || c == '\u{3000}'
}

/// ASCII lowercasing of a single character.
fn lower_char(c: char) -> (r: char)
    ensures
        r == spec_lower_char(c),
{
    match c {
        'A' => 'a',
        'B' => 'b',
        'C' => 'c',
        'D' => 'd',
        'E' => 'e',
        'F' => 'f',
        'G' => 'g',
        'H' => 'h',
        'I' => 'i',
        'J' => 'j',
        'K' => 'k',
        'L' => 'l',
        'M' => 'm',
        'N' => 'n',
        'O' => 'o',
        'P' => 'p',
        'Q' => 'q',
        'R' => 'r',
        'S' => 's',
        'T' => 't',
        'U' => 'u',
        'V' => 'v',
        'W' => 'w',
        'X' => 'x',
        'Y' => 'y',
        'Z' => 'z',
        _ => c,
    }
}

/// Dropping a run of leading whitespace computes the front trim.
proof fn lemma_trim_front_prefix(s: Seq<char>, k: int)
    requires
        0 <= k <= s.len(),
        forall|j: int| 0 <= j < k ==> spec_is_space(s[j]),
        k == s.len() || !spec_is_space(s[k]),
    ensures
        spec_trim_front(s) == s.subrange(k, s.len() as int),
    decreases k,
{
    if k == 0 {
        assert(s.subrange(0, s.len() as int) =~= s);
    } else {
        assert(spec_is_space(s[0]));
        lemma_trim_front_prefix(s.drop_first(), k - 1);
        assert(s.drop_first().subrange(k - 1, s.drop_first().len() as int) =~= s.subrange(
            k,
            s.len() as int,
        ));
    }
}

/// Dropping a run of trailing whitespace computes the back trim.
proof fn lemma_trim_back_suffix(s: Seq<char>, k: int)
    requires
        0 <= k <= s.len(),
        forall|j: int| k <= j < s.len() ==> spec_is_space(s[j]),
        k == 0 || !spec_is_space(s[k - 1]),
    ensures
        spec_trim_back(s) == s.subrange(0, k),
    decreases s.len() - k,
{
    if k == s.len() {
        if s.len() > 0 && spec_is_space(s[s.len() - 1]) {
            assert(!spec_is_space(s[k - 1]));
        }
        assert(s.subrange(0, s.len() as int) =~= s);
    } else {
        assert(spec_is_space(s[s.len() - 1]));
        lemma_trim_back_suffix(s.drop_last(), k);
        assert(s.drop_last().subrange(0, k) =~= s.subrange(0, k));
    }
}

/// Normalizes a string for kind parsing: trims whitespace at both ends and
/// lowercases ASCII letters.
fn normalize(value: &str) -> (r: String)
    ensures
        r@ == spec_normalize(value@),
{
    let n = value.unicode_len();
    let mut start: usize = 0;
    while start < n && is_space(value.get_char(start))
        invariant
            n == value@.len(),
            0 <= start <= n,
            forall|j: int| 0 <= j < start ==> spec_is_space(value@[j]),
        decreases n - start,
    {
        start += 1;
    }
    let mut end: usize = n;
    while end > start && is_space(value.get_char(end - 1))
        invariant
            n == value@.len(),
            start <= end <= n,
            forall|j: int| end <= j < n ==> spec_is_space(value@[j]),
        decreases end,
    {
        end -= 1;
    }
    proof {
        lemma_trim_front_prefix(value@, start as int);
        let t = value@.subrange(start as int, n as int);
        if end == start {
            lemma_trim_back_suffix(t, 0);
        } else {
            lemma_trim_back_suffix(t, end - start);
        }
        assert(t.subrange(0, end - start) =~= value@.subrange(start as int, end as int));
    }
    let mut r = String::new();
    let mut i: usize = start;
    while i < end
        invariant
            n == value@.len(),
            start <= i <= end <= n,
            r@ =~= value@.subrange(start as int, i as int).map_values(
                |c: char| spec_lower_char(c),
            ),
        decreases end - i,
    {
        let c = lower_char(value.get_char(i));
        crate::text::push_char(&mut r, c);
        proof {
            assert(value@.subrange(start as int, i + 1 as int).map_values(
                |c: char| spec_lower_char(c),
            ) =~= value@.subrange(start as int, i as int).map_values(
                |c: char| spec_lower_char(c),
            ).push(spec_lower_char(value@[i as int])));
        }
        i += 1;
    }
    proof {
        assert(r@ =~= spec_normalize(value@));
    }
    r
}

/// A chess piece: a kind together with its color.
#[derive(Copy, Clone, Debug, PartialEq, Eq, Structural)]
pub struct ChessPiece {
    /// The kind of the chess piece.
    pub kind: ChessPieceKind,
    /// Whether this is a white piece.
    pub is_white: bool,
}

/// The canonical asset file name of a piece variant:
/// `"{black|white}_{kind}.png"` with the lowercase kind name.
pub open spec fn spec_file_name(p: ChessPiece) -> Seq<char> {
    (if p.is_white {
        "white"@
    } else {
        "black"@
    }) + "_"@ + p.kind.spec_lower_name() + ".png"@
}

/// The twelve piece variants in enumeration order: for each kind in
/// declaration order, the black piece, then the white one.
pub open spec fn spec_all_variants() -> Seq<ChessPiece> {
    ChessPieceKind::spec_kinds().flat_map(
        |k: ChessPieceKind|
            seq![
                ChessPiece { kind: k, is_white: false },
                ChessPiece { kind: k, is_white: true },
            ],
    )
}

impl ChessPiece {
    /// All twelve piece variants: each kind once as a black piece and once
    /// as a white piece, kinds in declaration order.
    pub fn all_variants() -> (r: Vec<ChessPiece>)
        ensures
            r@ == spec_all_variants(),
    {
        let kinds = ChessPieceKind::kinds();
        let mut v: Vec<ChessPiece> = Vec::new();
        let mut i: usize = 0;
        while i < kinds.len()
            invariant
                kinds@ == ChessPieceKind::spec_kinds(),
                0 <= i <= kinds@.len(),
                v@ == ChessPieceKind::spec_kinds().take(i as int).flat_map(
                    |k: ChessPieceKind|
                        seq![
                            ChessPiece { kind: k, is_white: false },
                            ChessPiece { kind: k, is_white: true },
                        ],
                ),
            decreases kinds@.len() - i,
        {
            let k = kinds[i];
            v.push(ChessPiece { kind: k, is_white: false });
            v.push(ChessPiece { kind: k, is_white: true });
            proof {
                lemma_variant_pairs_step(i as int);
            }
            i += 1;
        }
        proof {
            assert(ChessPieceKind::spec_kinds().take(6) =~= ChessPieceKind::spec_kinds());
        }
        v
    }

    /// The canonical asset file name of this piece.
    pub fn to_file_name(self) -> (r: String)
        ensures
            r@ == spec_file_name(self),
    {
        let color = if self.is_white {
            "white"
        } else {
            "black"
        };
        String::from_str(color).concat("_").concat(self.kind.to_lower_name()).concat(".png")
    }
}

/// The total order on pieces: by color first (black before white), then by
/// the kinds' comparison rank.
pub open spec fn spec_piece_cmp(a: ChessPiece, b: ChessPiece) -> Ordering {
    if a.is_white == b.is_white {
        if a.kind.spec_rank() < b.kind.spec_rank() {
            Ordering::Less
        } else if a.kind.spec_rank() == b.kind.spec_rank() {
            Ordering::Equal
        } else {
            Ordering::Greater
        }
    } else if !a.is_white {
        Ordering::Less
    } else {
        Ordering::Greater
    }
}

impl ChessPiece {
    /// Total comparison of two pieces: black before white, then by kind
    /// rank. The underlying fields always compare, so the result is never
    /// undefined.
    pub fn cmp(&self, other: &Self) -> (r: Ordering)
        ensures
            r == spec_piece_cmp(*self, *other),
    {
        if self.is_white == other.is_white {
            let ra = self.kind.rank();
            let rb = other.kind.rank();
            if ra < rb {
                Ordering::Less
            } else if ra == rb {
                Ordering::Equal
            } else {
                Ordering::Greater
            }
        } else if !self.is_white {
            Ordering::Less
        } else {
            Ordering::Greater
        }
    }
}

impl PartialOrd for ChessPiece {
    fn partial_cmp(&self, other: &Self) -> (r: Option<Ordering>) {
        Some(self.cmp(other))
    }
}

impl vstd::std_specs::cmp::PartialOrdSpecImpl for ChessPiece {
    open spec fn obeys_partial_cmp_spec() -> bool {
        true
    }

    open spec fn partial_cmp_spec(&self, other: &Self) -> Option<Ordering> {
        Some(spec_piece_cmp(*self, *other))
    }
}

/// The piece order is strict and total: every two pieces compare, a piece
/// compares equal exactly to itself, and Less and Greater mirror each
/// other.
pub proof fn lemma_piece_order_total(a: ChessPiece, b: ChessPiece)
    ensures
        spec_piece_cmp(a, b) == Ordering::Equal <==> a == b,
        spec_piece_cmp(a, b) == Ordering::Less <==> spec_piece_cmp(b, a) == Ordering::Greater,
{
    if a.kind.spec_rank() == b.kind.spec_rank() {
        assert(a.kind == b.kind);
    }
}

/// The piece order is transitive.
pub proof fn lemma_piece_order_trans(a: ChessPiece, b: ChessPiece, c: ChessPiece)
    requires
        spec_piece_cmp(a, b) == Ordering::Less,
        spec_piece_cmp(b, c) == Ordering::Less,
    ensures
        spec_piece_cmp(a, c) == Ordering::Less,
{
}

/// Pieces order by color first — any black piece before any white piece —
/// and within one color by kind rank.
pub proof fn lemma_piece_order_shape(a: ChessPiece, b: ChessPiece)
    ensures
        spec_piece_cmp(a, b) == Ordering::Less <==> (!a.is_white && b.is_white) || (a.is_white
            == b.is_white && a.kind.spec_rank() < b.kind.spec_rank()),
{
}

/// Parsing the display name of a kind, in any letter case, yields that
/// kind back.
pub proof fn lemma_parse_display_round_trip(k: ChessPieceKind)
    ensures
        spec_parse(k.spec_display_name()) == Ok::<ChessPieceKind, Seq<char>>(k),
{
    reveal_strlit("Bishop");
    reveal_strlit("bishop");
    reveal_strlit("Knight");
    reveal_strlit("knight");
    reveal_strlit("Pawn");
    reveal_strlit("pawn");
    reveal_strlit("Rook");
    reveal_strlit("rook");
    reveal_strlit("Queen");
    reveal_strlit("queen");
    reveal_strlit("King");
    reveal_strlit("king");
    let s = k.spec_display_name();
    assert(!spec_is_space(s[0]));
    assert(!spec_is_space(s[s.len() - 1]));
    assert(spec_trim_front(s) == s);
    assert(spec_trim_back(s) == s);
    assert(spec_normalize(k.spec_display_name()) =~= k.spec_lower_name());
    match k {
        ChessPieceKind::Bishop => {
            assert(spec_kind_of_name("bishop"@) == Some(ChessPieceKind::Bishop));
        },
        ChessPieceKind::Knight => {
            assert("knight"@[0] == 'k' && "bishop"@[0] == 'b');
            assert(spec_kind_of_name("knight"@) == Some(ChessPieceKind::Knight));
        },
        ChessPieceKind::Pawn => {
            assert("pawn"@.len() == 4 && "bishop"@.len() == 6 && "knight"@.len() == 6);
            assert(spec_kind_of_name("pawn"@) == Some(ChessPieceKind::Pawn));
        },
        ChessPieceKind::Rook => {
            assert("rook"@[0] == 'r' && "pawn"@[0] == 'p' && "king"@[0] == 'k');
            assert(spec_kind_of_name("rook"@) == Some(ChessPieceKind::Rook));
        },
        ChessPieceKind::Queen => {
            assert("queen"@.len() == 5 && "bishop"@.len() == 6 && "knight"@.len() == 6
                && "pawn"@.len() == 4);
            assert(spec_kind_of_name("queen"@) == Some(ChessPieceKind::Queen));
        },
        ChessPieceKind::King => {
            assert("king"@[0] == 'k' && "pawn"@[0] == 'p' && "king"@.len() == 4 && "queen"@.len()
                == 5 && "bishop"@.len() == 6 && "knight"@.len() == 6);
            assert(spec_kind_of_name("king"@) == Some(ChessPieceKind::King));
        },
    }
}

/// The twelve enumerated variants, written out in enumeration order.
pub open spec fn spec_variant_list() -> Seq<ChessPiece> {
    seq![
        ChessPiece { kind: ChessPieceKind::Bishop, is_white: false },
        ChessPiece { kind: ChessPieceKind::Bishop, is_white: true },
        ChessPiece { kind: ChessPieceKind::Knight, is_white: false },
        ChessPiece { kind: ChessPieceKind::Knight, is_white: true },
        ChessPiece { kind: ChessPieceKind::Pawn, is_white: false },
        ChessPiece { kind: ChessPieceKind::Pawn, is_white: true },
        ChessPiece { kind: ChessPieceKind::Rook, is_white: false },
        ChessPiece { kind: ChessPieceKind::Rook, is_white: true },
        ChessPiece { kind: ChessPieceKind::Queen, is_white: false },
        ChessPiece { kind: ChessPieceKind::Queen, is_white: true },
        ChessPiece { kind: ChessPieceKind::King, is_white: false },
        ChessPiece { kind: ChessPieceKind::King, is_white: true },
    ]
}

/// The asset file names of the twelve variants, in enumeration order.
pub open spec fn spec_variant_names() -> Seq<Seq<char>> {
    spec_variant_list().map_values(|p: ChessPiece| spec_file_name(p))
}

/// The enumerated variants are the twelve pieces of `spec_variant_list`.
pub proof fn lemma_all_variants_list()
    ensures
        spec_all_variants() == spec_variant_list(),
{
    let f = (|k: ChessPieceKind|
        seq![
            ChessPiece { kind: k, is_white: false },
            ChessPiece { kind: k, is_white: true },
        ]);
    let s = ChessPieceKind::spec_kinds();
    assert(s.take(0).flat_map(f) =~= Seq::<ChessPiece>::empty());
    s.lemma_flat_map_take_append(f, 0);
    s.lemma_flat_map_take_append(f, 1);
    s.lemma_flat_map_take_append(f, 2);
    s.lemma_flat_map_take_append(f, 3);
    s.lemma_flat_map_take_append(f, 4);
    s.lemma_flat_map_take_append(f, 5);
    assert(s.take(6) =~= s);
    assert(s.take(6).flat_map(f) =~= spec_variant_list());
}

/// The enumeration yields exactly twelve variants, no two of them equal.
pub proof fn lemma_all_variants_distinct()
    ensures
        spec_all_variants().len() == 12,
        forall|i: int, j: int|
            0 <= i < j < spec_all_variants().len() ==> spec_all_variants()[i]
                != spec_all_variants()[j],
{
    lemma_all_variants_list();
    assert(forall|i: int, j: int|
        0 <= i < j < spec_variant_list().len() ==> spec_variant_list()[i]
            != spec_variant_list()[j]);
}

/// The file names derived from the enumerated variants, in order: the
/// black and the white name of each kind, kinds in declaration order.
pub proof fn lemma_variant_file_names()
    ensures
        spec_variant_names() == seq![
            "black_bishop.png"@,
            "white_bishop.png"@,
            "black_knight.png"@,
            "white_knight.png"@,
            "black_pawn.png"@,
            "white_pawn.png"@,
            "black_rook.png"@,
            "white_rook.png"@,
            "black_queen.png"@,
            "white_queen.png"@,
            "black_king.png"@,
            "white_king.png"@,
        ],
{
    reveal_strlit("black");
    reveal_strlit("white");
    reveal_strlit("_");
    reveal_strlit(".png");
    reveal_strlit("bishop");
    reveal_strlit("knight");
    reveal_strlit("pawn");
    reveal_strlit("rook");
    reveal_strlit("queen");
    reveal_strlit("king");
    reveal_strlit("black_bishop.png");
    reveal_strlit("white_bishop.png");
    reveal_strlit("black_knight.png");
    reveal_strlit("white_knight.png");
    reveal_strlit("black_pawn.png");
    reveal_strlit("white_pawn.png");
    reveal_strlit("black_rook.png");
    reveal_strlit("white_rook.png");
    reveal_strlit("black_queen.png");
    reveal_strlit("white_queen.png");
    reveal_strlit("black_king.png");
    reveal_strlit("white_king.png");
    assert(("black"@ + "_"@ + "bishop"@ + ".png"@) =~= "black_bishop.png"@);
    assert(("white"@ + "_"@ + "bishop"@ + ".png"@) =~= "white_bishop.png"@);
    assert(("black"@ + "_"@ + "knight"@ + ".png"@) =~= "black_knight.png"@);
    assert(("white"@ + "_"@ + "knight"@ + ".png"@) =~= "white_knight.png"@);
    assert(("black"@ + "_"@ + "pawn"@ + ".png"@) =~= "black_pawn.png"@);
    assert(("white"@ + "_"@ + "pawn"@ + ".png"@) =~= "white_pawn.png"@);
    assert(("black"@ + "_"@ + "rook"@ + ".png"@) =~= "black_rook.png"@);
    assert(("white"@ + "_"@ + "rook"@ + ".png"@) =~= "white_rook.png"@);
    assert(("black"@ + "_"@ + "queen"@ + ".png"@) =~= "black_queen.png"@);
    assert(("white"@ + "_"@ + "queen"@ + ".png"@) =~= "white_queen.png"@);
    assert(("black"@ + "_"@ + "king"@ + ".png"@) =~= "black_king.png"@);
    assert(("white"@ + "_"@ + "king"@ + ".png"@) =~= "white_king.png"@);
    assert(spec_variant_names() =~= seq![
        "black_bishop.png"@,
        "white_bishop.png"@,
        "black_knight.png"@,
        "white_knight.png"@,
        "black_pawn.png"@,
        "white_pawn.png"@,
        "black_rook.png"@,
        "white_rook.png"@,
        "black_queen.png"@,
        "white_queen.png"@,
        "black_king.png"@,
        "white_king.png"@,
    ]);
}

/// Extending the enumerated kinds by one appends exactly the black and the
/// white piece of that kind to the enumerated variants.
proof fn lemma_variant_pairs_step(i: int)
    requires
        0 <= i < ChessPieceKind::spec_kinds().len(),
    ensures
        ChessPieceKind::spec_kinds().take(i + 1).flat_map(
            |k: ChessPieceKind|
                seq![
                    ChessPiece { kind: k, is_white: false },
                    ChessPiece { kind: k, is_white: true },
                ],
        ) == ChessPieceKind::spec_kinds().take(i).flat_map(
            |k: ChessPieceKind|
                seq![
                    ChessPiece { kind: k, is_white: false },
                    ChessPiece { kind: k, is_white: true },
                ],
        ) + seq![
            ChessPiece { kind: ChessPieceKind::spec_kinds()[i], is_white: false },
            ChessPiece { kind: ChessPieceKind::spec_kinds()[i], is_white: true },
        ],
{
    let f = (|k: ChessPieceKind|
        seq![
            ChessPiece { kind: k, is_white: false },
            ChessPiece { kind: k, is_white: true },
        ]);
    let s = ChessPieceKind::spec_kinds();
    s.lemma_flat_map_take_append(f, i);
}

} // verus!
