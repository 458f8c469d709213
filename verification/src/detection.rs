use vstd::prelude::*;

use crate::geometry::BoundingBox;

verus! {

/// Raw model output for one image: one row per candidate detection, columns
/// `[x1, y1, x2, y2, confidence, class, ..]`. Every cell is a plain integer;
/// confidence cells and the threshold use the same caller-chosen
/// order-preserving encoding, so only their order matters here.
pub struct DetectionSet {
    pub rows: Vec<Vec<i32>>,
}

impl View for DetectionSet {
    type V = Seq<Seq<i32>>;

    open spec fn view(&self) -> Seq<Seq<i32>> {
        self.rows@.map_values(|r: Vec<i32>| r@)
    }
}

/// The set is usable: at least one row, and every row carries the six
/// expected columns.
pub open spec fn shape_ok(s: Seq<Seq<i32>>) -> bool {
    &&& s.len() > 0
    &&& forall|i: int| #![trigger s[i]] 0 <= i < s.len() ==> s[i].len() >= 6
}

/// The row's confidence meets the threshold; the bound is closed, so a
/// confidence exactly equal to the threshold qualifies.
pub open spec fn qualifies(row: Seq<i32>, conf_thresh: i32) -> bool {
    row[4] >= conf_thresh
}

/// The qualifying rows, in order.
pub open spec fn qualifying(s: Seq<Seq<i32>>, conf_thresh: i32) -> Seq<Seq<i32>>
    decreases s.len(),
{
    if s.len() == 0 {
        Seq::empty()
    } else {
        let rest = qualifying(s.drop_last(), conf_thresh);
        if qualifies(s.last(), conf_thresh) {
            rest.push(s.last())
        } else {
            rest
        }
    }
}

/// The box spanned by the row's two corner points: the smaller coordinate on
/// each axis, and the absolute difference as the side length.
pub open spec fn bbox_of(row: Seq<i32>) -> BoundingBox {
    BoundingBox {
        x: if row[0] <= row[2] {
            row[0] as i64
        } else {
            row[2] as i64
        },
        y: if row[1] <= row[3] {
            row[1] as i64
        } else {
            row[3] as i64
        },
        width: if row[0] <= row[2] {
            (row[2] - row[0]) as i64
        } else {
            (row[0] - row[2]) as i64
        },
        height: if row[1] <= row[3] {
            (row[3] - row[1]) as i64
        } else {
            (row[1] - row[3]) as i64
        },
    }
}

/// What `select_single_face` returns: the normalized box of the unique
/// qualifying row, and `None` for a malformed shape or any other count.
pub open spec fn select_spec(s: Seq<Seq<i32>>, conf_thresh: i32) -> Option<BoundingBox> {
    if shape_ok(s) && qualifying(s, conf_thresh).len() == 1 {
        Some(bbox_of(qualifying(s, conf_thresh)[0]))
    } else {
        None
    }
}

/// Reduce a raw detection set to at most one accepted bounding box: reject a
/// malformed shape, keep the rows whose confidence meets the threshold, and
/// accept only a count of exactly one.
pub fn select_single_face(dets: &DetectionSet, conf_thresh: i32) -> (r: Option<BoundingBox>)
    ensures
        r == select_spec(dets@, conf_thresh),
        r matches Some(b) ==> b.valid(),
{
    let n = dets.rows.len();
    if n == 0 {
        return None;
    }
    let mut i: usize = 0;
    while i < n
        invariant
            i <= n,
            n == dets.rows@.len(),
            dets@ == dets.rows@.map_values(|r: Vec<i32>| r@),
            forall|k: int| #![trigger dets@[k]] 0 <= k < i ==> dets@[k].len() >= 6,
        decreases n - i,
    {
        if dets.rows[i].len() < 6 {
            assert(dets@[i as int].len() < 6);
            return None;
        }
        i += 1;
    }
    assert(shape_ok(dets@));
    let mut count: usize = 0;
    let mut found: usize = 0;
    let mut j: usize = 0;
    while j < n
        invariant
            j <= n,
            n == dets.rows@.len(),
            dets@ == dets.rows@.map_values(|r: Vec<i32>| r@),
            shape_ok(dets@),
            count == qualifying(dets@.take(j as int), conf_thresh).len(),
            count <= j,
            count == 1 ==> found < j && qualifying(dets@.take(j as int), conf_thresh)[0]
                == dets@[found as int],
        decreases n - j,
    {
        proof {
            assert(dets@.take(j + 1).drop_last() =~= dets@.take(j as int));
            assert(dets@.take(j + 1).last() == dets@[j as int]);
        }
        let row: &Vec<i32> = &dets.rows[j];
        assert(row@ == dets@[j as int]);
        if row[4] >= conf_thresh {
            count += 1;
            found = j;
        }
        j += 1;
    }
    proof {
        assert(dets@.take(n as int) =~= dets@);
    }
    if count != 1 {
        return None;
    }
    let row: &Vec<i32> = &dets.rows[found];
    assert(row@ == dets@[found as int]);
    let x1: i64 = row[0] as i64;
    let y1: i64 = row[1] as i64;
    let x2: i64 = row[2] as i64;
    let y2: i64 = row[3] as i64;
    let bbox = BoundingBox {
        x: if x1 <= x2 {
            x1
        } else {
            x2
        },
        y: if y1 <= y2 {
            y1
        } else {
            y2
        },
        width: if x1 <= x2 {
            x2 - x1
        } else {
            x1 - x2
        },
        height: if y1 <= y2 {
            y2 - y1
        } else {
            y1 - y2
        },
    };
    Some(bbox)
}

/// A row that qualifies contributes to the filtered sequence.
proof fn lemma_qualifier_counted(s: Seq<Seq<i32>>, conf_thresh: i32, i: int)
    requires
        0 <= i < s.len(),
        qualifies(s[i], conf_thresh),
    ensures
        qualifying(s, conf_thresh).len() >= 1,
    decreases s.len(),
{
    if i < s.len() - 1 {
        lemma_qualifier_counted(s.drop_last(), conf_thresh, i);
    }
}

/// Two distinct qualifying rows leave at least two filtered rows.
proof fn lemma_two_qualifiers_counted(s: Seq<Seq<i32>>, conf_thresh: i32, i: int, j: int)
    requires
        0 <= i < j < s.len(),
        qualifies(s[i], conf_thresh),
        qualifies(s[j], conf_thresh),
    ensures
        qualifying(s, conf_thresh).len() >= 2,
    decreases s.len(),
{
    if j == s.len() - 1 {
        lemma_qualifier_counted(s.drop_last(), conf_thresh, i);
    } else {
        lemma_two_qualifiers_counted(s.drop_last(), conf_thresh, i, j);
    }
}

/// Law: a set with no rows, or with any row that lacks the six expected
/// columns, is rejected, whatever the rows say.
pub proof fn lemma_malformed_shape_rejected(s: Seq<Seq<i32>>, conf_thresh: i32)
    requires
        s.len() == 0 || exists|i: int| 0 <= i < s.len() && (#[trigger] s[i]).len() < 6,
    ensures
        select_spec(s, conf_thresh) is None,
{
}

/// Law: a single well-formed row whose confidence equals the threshold
/// exactly is accepted — the lower bound is closed.
pub proof fn lemma_boundary_confidence_accepted(s: Seq<Seq<i32>>, conf_thresh: i32)
    requires
        s.len() == 1,
        s[0].len() >= 6,
        s[0][4] == conf_thresh,
    ensures
        select_spec(s, conf_thresh) == Some(bbox_of(s[0])),
{
    assert(s.drop_last() =~= Seq::<Seq<i32>>::empty());
    assert(qualifying(s.drop_last(), conf_thresh) =~= Seq::<Seq<i32>>::empty());
    assert(qualifying(s, conf_thresh) =~= seq![s[0]]);
}

/// Law: two distinct rows that both meet the threshold make the set
/// ambiguous, and it is rejected even though each row qualifies on its own.
pub proof fn lemma_ambiguous_detections_rejected(
    s: Seq<Seq<i32>>,
    conf_thresh: i32,
    i: int,
    j: int,
)
    requires
        0 <= i < j < s.len(),
        s[i][4] >= conf_thresh,
        s[j][4] >= conf_thresh,
    ensures
        select_spec(s, conf_thresh) is None,
{
    lemma_two_qualifiers_counted(s, conf_thresh, i, j);
}

} // verus!
