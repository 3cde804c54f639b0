//! Splitting a byte stream in the Annex B format of H.264 and H.265 into its units: each unit
//! begins with a start code, `00 00 01` or `00 00 00 01`, and runs to the next start code.
use vstd::prelude::*;

use crate::text::copy_range;

verus! {

/// The start code of a unit.
#[derive(Debug, Clone, Copy, PartialEq, Eq, Structural)]
pub enum AnnexBStartCode {
    /// `00 00 01`
    ThreeBytes,
    /// `00 00 00 01`
    FourBytes,
}

/// `00 00 01` begins at `i`.
pub open spec fn start_code_at(b: Seq<u8>, i: int) -> bool {
    0 <= i && i + 3 <= b.len() && b[i] == 0 && b[i + 1] == 0 && b[i + 2] == 1
}

/// The first `00 00 01` at or after `from`.
pub open spec fn find_start(b: Seq<u8>, from: int) -> Option<int>
    decreases b.len() - from,
{
    if from < 0 || from + 3 > b.len() {
        None
    } else if start_code_at(b, from) {
        Some(from)
    } else {
        find_start(b, from + 1)
    }
}

/// Where the unit whose payload starts at `payload` ends: before the zero that makes the next
/// start code four bytes long, or before the next start code, or at the end of the stream.
pub open spec fn unit_end(b: Seq<u8>, payload: int) -> int {
    match find_start(b, payload) {
        None => b.len() as int,
        Some(k) => if k > payload && b[k - 1] == 0 {
            k - 1
        } else {
            k
        },
    }
}

/// A unit: where its start code begins, where its payload begins and where it ends.
pub struct UnitBounds {
    pub start: int,
    pub payload: int,
    pub end: int,
}

/// The next unit with a non-empty payload from position `p` on; units with an empty payload
/// are passed over.
pub open spec fn spec_next_unit(b: Seq<u8>, p: int) -> Option<UnitBounds>
    decreases b.len() - p,
{
    if p < 0 || p > b.len() {
        None
    } else {
        match find_start(b, p) {
            None => None,
            Some(j) => {
                let start = if j >= p + 1 && b[j - 1] == 0 {
                    j - 1
                } else {
                    j
                };
                let end = unit_end(b, j + 3);
                if end <= j + 3 {
                    if end > p {
                        spec_next_unit(b, end)
                    } else {
                        None
                    }
                } else {
                    Some(UnitBounds { start, payload: j + 3, end })
                }
            },
        }
    }
}

proof fn lemma_find_start(b: Seq<u8>, from: int)
    requires
        0 <= from,
    ensures
        find_start(b, from) matches Some(k) ==> from <= k && start_code_at(b, k),
    decreases b.len() - from,
{
    if from + 3 <= b.len() && !start_code_at(b, from) {
        lemma_find_start(b, from + 1);
    }
}

proof fn lemma_find_start_first(b: Seq<u8>, from: int)
    requires
        0 <= from,
    ensures
        match find_start(b, from) {
            None => forall|i: int| from <= i ==> !#[trigger] start_code_at(b, i),
            Some(k) => forall|i: int| from <= i < k ==> !#[trigger] start_code_at(b, i),
        },
    decreases b.len() - from,
{
    if from + 3 <= b.len() && !start_code_at(b, from) {
        lemma_find_start_first(b, from + 1);
    }
}

proof fn lemma_unit_end(b: Seq<u8>, payload: int)
    requires
        0 <= payload <= b.len(),
    ensures
        payload <= unit_end(b, payload) <= b.len(),
{
    lemma_find_start(b, payload);
}

/// Where the next unit lies: after `p`, its start code three or four bytes before its payload,
/// its payload not empty, its end in the stream.
pub proof fn lemma_next_unit(b: Seq<u8>, p: int)
    requires
        0 <= p <= b.len(),
    ensures
        spec_next_unit(b, p) matches Some(u) ==> {
            &&& p <= u.start
            &&& u.start + 3 <= u.payload <= u.start + 4
            &&& u.payload < u.end <= b.len()
        },
    decreases b.len() - p,
{
    lemma_find_start(b, p);
    match find_start(b, p) {
        None => {},
        Some(j) => {
            lemma_unit_end(b, j + 3);
            let end = unit_end(b, j + 3);
            if end <= j + 3 && end > p {
                lemma_next_unit(b, end);
            }
        },
    }
}

/// Each unit the splitter hands out begins with a start code of three or four bytes, and no
/// start code lies inside its payload.
pub proof fn law_unit_framing(b: Seq<u8>, p: int)
    requires
        0 <= p <= b.len(),
    ensures
        spec_next_unit(b, p) matches Some(u) ==> {
            &&& (b.subrange(u.start, u.payload) == seq![0u8, 0, 1] || b.subrange(u.start, u.payload)
                == seq![0u8, 0, 0, 1])
            &&& forall|i: int| u.payload <= i && i + 3 <= u.end ==> !#[trigger] start_code_at(b, i)
        },
    decreases b.len() - p,
{
    lemma_find_start(b, p);
    match find_start(b, p) {
        None => {},
        Some(j) => {
            lemma_unit_end(b, j + 3);
            lemma_find_start_first(b, j + 3);
            lemma_find_start(b, j + 3);
            let end = unit_end(b, j + 3);
            if end <= j + 3 {
                if end > p {
                    law_unit_framing(b, end);
                }
            } else {
                let start = if j >= p + 1 && b[j - 1] == 0 {
                    j - 1
                } else {
                    j
                };
                if start == j {
                    assert(b.subrange(start, j + 3) =~= seq![0u8, 0, 1]);
                } else {
                    assert(b.subrange(start, j + 3) =~= seq![0u8, 0, 0, 1]);
                }
            }
        },
    }
}

/// One unit of an Annex B stream: its bytes from the start code to its end, and where in them
/// the start code and the payload lie.
#[derive(Debug)]
pub struct AnnexBUnit {
    pub start_code: AnnexBStartCode,
    pub start_code_range: (usize, usize),
    pub payload_range: (usize, usize),
    pub full: Vec<u8>,
}

/// The unit `u` of the stream `b`, as it is handed out.
pub open spec fn unit_matches(u: AnnexBUnit, b: Seq<u8>, bounds: UnitBounds) -> bool {
    &&& u.full@ == b.subrange(bounds.start, bounds.end)
    &&& u.start_code == (if bounds.payload - bounds.start == 4 {
        AnnexBStartCode::FourBytes
    } else {
        AnnexBStartCode::ThreeBytes
    })
    &&& u.start_code_range == (0usize, (bounds.payload - bounds.start) as usize)
    &&& u.payload_range == ((bounds.payload - bounds.start) as usize, (bounds.end - bounds.start) as usize)
}

/// Splits a byte stream into its Annex B units.
pub struct AnnexBSplitter {
    data: Vec<u8>,
    position: usize,
}

fn find_start_exec(b: &Vec<u8>, from: usize) -> (res: Option<usize>)
    ensures
        match find_start(b@, from as int) {
            None => res is None,
            Some(k) => res matches Some(r) && r == k,
        },
        res matches Some(r) ==> from <= r && start_code_at(b@, r as int),
{
    proof { lemma_find_start(b@, from as int); }
    let len = b.len();
    if len < 3 {
        return None;
    }
    let mut i = from;
    while i <= len - 3
        invariant
            len == b@.len(),
            len >= 3,
            from <= i,
            find_start(b@, from as int) == find_start(b@, i as int),
        decreases len - i,
    {
        if b[i] == 0 && b[i + 1] == 0 && b[i + 2] == 1 {
            return Some(i);
        }
        i = i + 1;
    }
    None
}

fn unit_end_exec(b: &Vec<u8>, payload: usize) -> (res: usize)
    requires
        payload <= b@.len(),
    ensures
        res == unit_end(b@, payload as int),
        payload <= res <= b@.len(),
{
    proof { lemma_unit_end(b@, payload as int); }
    match find_start_exec(b, payload) {
        None => b.len(),
        Some(k) => {
            if k > payload && b[k - 1] == 0 {
                k - 1
            } else {
                k
            }
        },
    }
}

impl AnnexBSplitter {
    /// The stream.
    pub closed spec fn stream(&self) -> Seq<u8> {
        self.data@
    }

    /// Where the next unit is looked for.
    pub closed spec fn pos(&self) -> int {
        self.position as int
    }

    /// The splitter's position lies in its stream.
    pub open spec fn wf(&self) -> bool {
        0 <= self.pos() <= self.stream().len() <= usize::MAX
    }

    /// A splitter at the start of `data`.
    pub fn new(data: Vec<u8>) -> (res: Self)
        ensures
            res.wf(),
            res.stream() == data@,
            res.pos() == 0,
    {
        let _ = data.len();  // the length of a vector fits in usize
        AnnexBSplitter { data, position: 0 }
    }

    /// Starts over on `data`.
    pub fn reset(&mut self, data: Vec<u8>)
        ensures
            final(self).wf(),
            final(self).stream() == data@,
            final(self).pos() == 0,
    {
        let _ = data.len();  // the length of a vector fits in usize
        self.data = data;
        self.position = 0;
    }

    /// The next unit with a non-empty payload, or `None` at the end of the stream.
    pub fn next(&mut self) -> (res: Option<AnnexBUnit>)
        requires
            old(self).wf(),
        ensures
            final(self).wf(),
            final(self).stream() == old(self).stream(),
            match spec_next_unit(old(self).stream(), old(self).pos()) {
                None => res is None,
                Some(bounds) => res matches Some(u) && unit_matches(u, old(self).stream(), bounds)
                    && final(self).pos() == bounds.end,
            },
        decreases old(self).stream().len() - old(self).pos(),
    {
        let p = self.position;
        let len = self.data.len();
        match find_start_exec(&self.data, p) {
            None => {
                self.position = len;
                None
            },
            Some(j) => {
                proof { lemma_find_start(self.data@, p as int); }
                let start = if j > p && self.data[j - 1] == 0 {
                    j - 1
                } else {
                    j
                };
                let end = unit_end_exec(&self.data, j + 3);
                if end <= j + 3 {
                    if end > p {
                        self.position = end;
                        self.next()
                    } else {
                        self.position = self.data.len();
                        None
                    }
                } else {
                    let full = copy_range(self.data.as_slice(), start, end);
                    let head = j + 3 - start;
                    self.position = end;
                    Some(
                        AnnexBUnit {
                            start_code: if head == 4 {
                                AnnexBStartCode::FourBytes
                            } else {
                                AnnexBStartCode::ThreeBytes
                            },
                            start_code_range: (0, head),
                            payload_range: (head, end - start),
                            full,
                        },
                    )
                }
            },
        }
    }
}

} // verus!
