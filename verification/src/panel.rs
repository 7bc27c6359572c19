//! State the panel keeps: the latest sensor data per cube, which cube is
//! selected, and how a cube is labelled.

use vstd::prelude::*;
use crate::cube::{update_entry, CubeSensorData, CubeView, SensorUpdateParams};
use crate::proto::RendererFpsParams;
use crate::history::{bounded_push, law_history_keeps_newest, push_bounded, PANEL_HISTORY_LIMIT};
use crate::text::{decimal, push_char, push_decimal, str_equals};

verus! {

/// The data stored under `key`, the last entry with that key winning.
pub open spec fn lookup(s: Seq<(Seq<char>, CubeView)>, key: Seq<char>) -> Option<CubeView>
    decreases s.len(),
{
    if s.len() == 0 {
        None
    } else if s.last().0 == key {
        Some(s.last().1)
    } else {
        lookup(s.drop_last(), key)
    }
}

/// Whether no key occurs twice.
pub open spec fn keys_unique(s: Seq<(Seq<char>, CubeView)>) -> bool {
    forall|i: int, j: int| 0 <= i < j < s.len() ==> s[i].0 != s[j].0
}

/// A cube's data after a `sensor.update`: the new reading, appended to a
/// history of at most `PANEL_HISTORY_LIMIT` entries.
pub open spec fn updated(c: CubeView, u: SensorUpdateParams) -> CubeView {
    CubeView {
        temperature_bits: u.temperature_bits,
        humidity_bits: u.humidity_bits,
        timestamp: u.timestamp,
        history: bounded_push(c.history, update_entry(u), PANEL_HISTORY_LIMIT as nat),
        ..c
    }
}

/// The data of a cube the panel has not heard of yet: empty, with no name.
pub open spec fn empty_cube() -> CubeView {
    CubeView {
        id: Seq::empty(),
        label: Seq::empty(),
        temperature_bits: 0,
        humidity_bits: 0,
        timestamp: 0,
        history: Seq::empty(),
    }
}

/// What `lookup` finds for `k` after the snapshot `cubes` was applied to `s`.
pub open spec fn after_snapshot(s: Seq<(Seq<char>, CubeView)>, cubes: Seq<CubeView>, k: Seq<char>) -> Option<CubeView>
    decreases cubes.len(),
{
    if cubes.len() == 0 {
        lookup(s, k)
    } else if cubes.last().id == k {
        Some(cubes.last())
    } else {
        after_snapshot(s, cubes.drop_last(), k)
    }
}

/// What `lookup` finds for `k` after the update `u` was applied to `s`: the
/// updated cube under its id, a cube not seen before starting out empty.
pub open spec fn after_update(s: Seq<(Seq<char>, CubeView)>, u: SensorUpdateParams, k: Seq<char>) -> Option<CubeView> {
    if k == u.cube_id@ {
        Some(
            updated(
                match lookup(s, k) {
                    Some(c) => c,
                    None => empty_cube(),
                },
                u,
            ),
        )
    } else {
        lookup(s, k)
    }
}

/// `lookup` finds the entry at `i` when keys are unique.
proof fn lemma_lookup_at(s: Seq<(Seq<char>, CubeView)>, i: int)
    requires
        keys_unique(s),
        0 <= i < s.len(),
    ensures
        lookup(s, s[i].0) == Some(s[i].1),
    decreases s.len(),
{
    if i < s.len() - 1 {
        assert(s.last().0 != s[i].0);
        assert(s.drop_last()[i] == s[i]);
        lemma_lookup_at(s.drop_last(), i);
    }
}

/// `lookup` finds nothing for a key that no entry has.
proof fn lemma_lookup_absent(s: Seq<(Seq<char>, CubeView)>, key: Seq<char>)
    requires
        forall|i: int| 0 <= i < s.len() ==> s[i].0 != key,
    ensures
        lookup(s, key) is None,
    decreases s.len(),
{
    if s.len() > 0 {
        assert forall|i: int| 0 <= i < s.drop_last().len() implies s.drop_last()[i].0 != key by {
            assert(s.drop_last()[i] == s[i]);
        }
        lemma_lookup_absent(s.drop_last(), key);
    }
}

/// Replacing the value at `i` changes what `lookup` finds for that key only.
proof fn lemma_lookup_update(s: Seq<(Seq<char>, CubeView)>, i: int, v: CubeView, key: Seq<char>)
    requires
        keys_unique(s),
        0 <= i < s.len(),
    ensures
        lookup(s.update(i, (s[i].0, v)), key) == if key == s[i].0 {
            Some(v)
        } else {
            lookup(s, key)
        },
    decreases s.len(),
{
    let t = s.update(i, (s[i].0, v));
    if i == s.len() - 1 {
        assert(t.drop_last() =~= s.drop_last());
    } else {
        assert(t.drop_last() =~= s.drop_last().update(i, (s[i].0, v)));
        assert(s.drop_last()[i] == s[i]);
        assert(keys_unique(s.drop_last()));
        lemma_lookup_update(s.drop_last(), i, v, key);
        if key == s[i].0 {
            assert(s.last().0 != s[i].0);
        }
    }
}

/// A copy of `c`.
fn copy_cube(c: &CubeSensorData) -> (r: CubeSensorData)
    ensures
        r@ == c@,
{
    let mut history = Vec::new();
    let n = c.history.len();
    let mut i: usize = 0;
    while i < n
        invariant
            n == c.history@.len(),
            i <= n,
            history@ == c.history@.subrange(0, i as int),
        decreases n - i,
    {
        history.push(c.history[i]);
        i = i + 1;
        assert(history@ =~= c.history@.subrange(0, i as int));
    }
    assert(history@ =~= c.history@);
    CubeSensorData {
        id: c.id.clone(),
        label: c.label.clone(),
        temperature_bits: c.temperature_bits,
        humidity_bits: c.humidity_bits,
        timestamp: c.timestamp,
        history,
    }
}

/// The latest sensor data of each cube, by cube id.
pub struct SensorStore {
    entries: Vec<(String, CubeSensorData)>,
}

impl View for SensorStore {
    type V = Seq<(Seq<char>, CubeView)>;

    closed spec fn view(&self) -> Seq<(Seq<char>, CubeView)> {
        self.entries@.map_values(|e: (String, CubeSensorData)| (e.0@, e.1@))
    }
}

impl SensorStore {
    /// Each cube is stored once.
    #[verifier::type_invariant]
    spec fn inv(&self) -> bool {
        keys_unique(self.entries@.map_values(|e: (String, CubeSensorData)| (e.0@, e.1@)))
    }

    /// A store that knows no cube.
    pub fn new() -> (r: SensorStore)
        ensures
            forall|k: Seq<char>| lookup(r@, k) is None,
    {
        let r = SensorStore { entries: Vec::new() };
        assert forall|k: Seq<char>| lookup(r@, k) is None by {
            assert(r@.len() == 0);
        }
        r
    }

    /// Where the entry for `id` is, if there is one.
    fn position(&self, id: &str) -> (r: Option<usize>)
        ensures
            match r {
                Some(i) => i < self@.len() && self@[i as int].0 == id@,
                None => forall|i: int| 0 <= i < self@.len() ==> self@[i].0 != id@,
            },
    {
        let n = self.entries.len();
        let mut i: usize = 0;
        while i < n
            invariant
                n == self.entries@.len(),
                n == self@.len(),
                i <= n,
                forall|k: int| 0 <= k < i ==> self@[k].0 != id@,
            decreases n - i,
        {
            assert(self@[i as int].0 == self.entries@[i as int].0@);
            if str_equals(self.entries[i].0.as_str(), id) {
                return Some(i);
            }
            i = i + 1;
        }
        None
    }

    /// The data stored for cube `id`.
    pub fn get(&self, id: &str) -> (r: Option<&CubeSensorData>)
        ensures
            match r {
                Some(c) => lookup(self@, id@) == Some(c@),
                None => lookup(self@, id@) is None,
            },
    {
        proof {
            use_type_invariant(self);
        }
        match self.position(id) {
            Some(i) => {
                proof {
                    lemma_lookup_at(self@, i as int);
                }
                assert(self@[i as int].1 == self.entries@[i as int].1@);
                Some(&self.entries[i].1)
            },
            None => {
                proof {
                    lemma_lookup_absent(self@, id@);
                }
                None
            },
        }
    }

    /// Stores `data` under `id`, replacing what was there.
    pub fn insert(&mut self, id: String, data: CubeSensorData)
        ensures
            forall|k: Seq<char>|
                lookup(final(self)@, k) == if k == id@ {
                    Some(data@)
                } else {
                    lookup(old(self)@, k)
                },
    {
        proof {
            use_type_invariant(&*self);
        }
        let ghost s0 = self@;
        let pos = self.position(id.as_str());
        let mut entries: Vec<(String, CubeSensorData)> = Vec::new();
        std::mem::swap(&mut entries, &mut self.entries);
        assert(entries@.map_values(|e: (String, CubeSensorData)| (e.0@, e.1@)) =~= s0);
        let ghost key = id@;
        let ghost d = data@;
        match pos {
            Some(i) => {
                entries.set(i, (id, data));
                let ghost s1 = entries@.map_values(|e: (String, CubeSensorData)| (e.0@, e.1@));
                proof {
                    assert(s1 =~= s0.update(i as int, (s0[i as int].0, d)));
                    assert forall|k: Seq<char>|
                        lookup(s1, k) == if k == key {
                            Some(d)
                        } else {
                            lookup(s0, k)
                        } by {
                        lemma_lookup_update(s0, i as int, d, k);
                    }
                    assert forall|a: int, b: int| 0 <= a < b < s1.len() implies s1[a].0 != s1[b].0 by {
                        assert(s1[a].0 == s0[a].0);
                        assert(s1[b].0 == s0[b].0);
                    }
                }
            },
            None => {
                entries.push((id, data));
                let ghost s1 = entries@.map_values(|e: (String, CubeSensorData)| (e.0@, e.1@));
                proof {
                    assert(s1 =~= s0.push((key, d)));
                    assert(s1.drop_last() =~= s0);
                    assert forall|a: int, b: int| 0 <= a < b < s1.len() implies s1[a].0 != s1[b].0 by {
                        if b == s1.len() - 1 {
                            assert(s1[a] == s0[a]);
                        } else {
                            assert(s1[a] == s0[a]);
                            assert(s1[b] == s0[b]);
                        }
                    }
                }
            },
        }
        self.entries = entries;
    }

    /// Applies a `sensor.snapshot`: every cube in it is stored under its own
    /// id, replacing what was there; of two with one id the later wins.
    pub fn apply_snapshot(&mut self, cubes: Vec<CubeSensorData>)
        ensures
            forall|k: Seq<char>|
                lookup(final(self)@, k) == after_snapshot(
                    old(self)@,
                    cubes@.map_values(|c: CubeSensorData| c@),
                    k,
                ),
    {
        let ghost s0 = self@;
        let ghost all = cubes@.map_values(|c: CubeSensorData| c@);
        let n = cubes.len();
        let mut rest = cubes;
        let mut i: usize = 0;
        while i < n
            invariant
                i <= n,
                n == all.len(),
                rest@.len() == n - i,
                rest@.map_values(|c: CubeSensorData| c@) =~= all.subrange(i as int, n as int),
                forall|k: Seq<char>|
                    lookup(self@, k) == after_snapshot(s0, all.subrange(0, i as int), k),
            decreases n - i,
        {
            assert(rest@.map_values(|c: CubeSensorData| c@)[0] == all[i as int]);
            let ghost r0 = rest@;
            let c = rest.remove(0);
            let id = c.id.clone();
            self.insert(id, c);
            i = i + 1;
            assert(all.subrange(0, i as int).drop_last() =~= all.subrange(0, i - 1));
            assert forall|j: int| 0 <= j < rest@.len() implies rest@.map_values(
                |c: CubeSensorData| c@,
            )[j] == all.subrange(i as int, n as int)[j] by {
                assert(rest@[j] == r0[j + 1]);
                assert(r0.map_values(|c: CubeSensorData| c@)[j + 1] == all.subrange(i - 1, n as int)[j + 1]);
            }
            assert(rest@.map_values(|c: CubeSensorData| c@) =~= all.subrange(i as int, n as int));
        }
        assert(all.subrange(0, n as int) =~= all);
    }

    /// Applies a `sensor.update`: the cube's reading is replaced and added to
    /// its history; a cube not seen before starts out empty, without a name.
    pub fn apply_update(&mut self, update: SensorUpdateParams)
        ensures
            forall|k: Seq<char>| lookup(final(self)@, k) == after_update(old(self)@, update, k),
    {
        let mut cube = match self.get(update.cube_id.as_str()) {
            Some(c) => copy_cube(c),
            None => CubeSensorData::empty(),
        };
        cube.temperature_bits = update.temperature_bits;
        cube.humidity_bits = update.humidity_bits;
        cube.timestamp = update.timestamp;
        push_bounded(&mut cube.history, crate::cube::SensorHistoryEntry {
            timestamp: update.timestamp,
            temperature_bits: update.temperature_bits,
            humidity_bits: update.humidity_bits,
        }, PANEL_HISTORY_LIMIT);
        let id = update.cube_id.clone();
        self.insert(id, cube);
    }
}

/// A notification from the server to the panel, its parameters read as its
/// method wants them.
pub enum PanelNotice {
    /// `sensor.snapshot`: the data of every cube.
    Snapshot(Vec<CubeSensorData>),
    /// `sensor.update`: one cube's new reading.
    Update(SensorUpdateParams),
    /// `renderer.log`: one line of the renderer's log.
    Log(String),
    /// `renderer.fps`: the renderer's frame rate.
    Fps(RendererFpsParams),
    /// A notification the panel does not act on: an unknown method, or
    /// parameters that could not be read.
    Ignored,
}

/// What the panel shows after a notification, besides its sensor data.
pub enum PanelEvent {
    Nothing,
    /// A renderer log line for the console.
    Log(String),
    /// A new renderer frame rate for its display.
    Fps(RendererFpsParams),
}

impl SensorStore {
    /// Acts on a notification from the server: sensor notifications update
    /// the store, a log line or a frame rate is handed back to be shown, and
    /// anything else changes nothing.
    pub fn on_notice(&mut self, notice: PanelNotice) -> (r: PanelEvent)
        ensures
            match notice {
                PanelNotice::Snapshot(cubes) => {
                    &&& r is Nothing
                    &&& forall|k: Seq<char>|
                        lookup(final(self)@, k) == after_snapshot(
                            old(self)@,
                            cubes@.map_values(|c: CubeSensorData| c@),
                            k,
                        )
                },
                PanelNotice::Update(u) => {
                    &&& r is Nothing
                    &&& forall|k: Seq<char>| lookup(final(self)@, k) == after_update(old(self)@, u, k)
                },
                PanelNotice::Log(line) => final(self)@ == old(self)@ && r == PanelEvent::Log(line),
                PanelNotice::Fps(p) => final(self)@ == old(self)@ && r == PanelEvent::Fps(p),
                PanelNotice::Ignored => final(self)@ == old(self)@ && r is Nothing,
            },
    {
        match notice {
            PanelNotice::Snapshot(cubes) => {
                self.apply_snapshot(cubes);
                PanelEvent::Nothing
            },
            PanelNotice::Update(u) => {
                self.apply_update(u);
                PanelEvent::Nothing
            },
            PanelNotice::Log(line) => PanelEvent::Log(line),
            PanelNotice::Fps(p) => PanelEvent::Fps(p),
            PanelNotice::Ignored => PanelEvent::Nothing,
        }
    }
}

impl SensorStore {
    /// The data the trend chart is drawn from: that of the selected cube, if
    /// a cube is selected and the store has data of it; otherwise no chart.
    pub fn chart_for(&self, selected: &Option<String>) -> (r: Option<&CubeSensorData>)
        ensures
            match *selected {
                None => r is None,
                Some(id) => match r {
                    Some(c) => lookup(self@, id@) == Some(c@),
                    None => lookup(self@, id@) is None,
                },
            },
    {
        match selected {
            Some(id) => self.get(id.as_str()),
            None => None,
        }
    }
}

/// The ids the panel numbers its requests with: the last one given out.
pub struct RequestIds {
    pub last: u64,
}

/// The last id after `n` more requests were numbered, starting after `last`.
pub open spec fn last_after(last: u64, n: nat) -> int
    decreases n,
{
    if n == 0 {
        last as int
    } else {
        last_after(last, (n - 1) as nat) + 1
    }
}

/// The ids `n` requests in turn are given, starting after `last`.
pub open spec fn request_ids(last: u64, n: nat) -> Seq<int>
    decreases n,
{
    if n == 0 {
        Seq::empty()
    } else {
        request_ids(last, (n - 1) as nat).push(last_after(last, (n - 1) as nat) + 1)
    }
}

impl RequestIds {
    /// No request numbered yet.
    pub fn new() -> (r: RequestIds)
        ensures
            r.last == 0,
    {
        RequestIds { last: 0 }
    }

    /// The id of the next request: one more than the last.
    pub fn next_id(&mut self) -> (id: u64)
        requires
            old(self).last < u64::MAX,
        ensures
            id == old(self).last + 1,
            final(self).last == id,
    {
        self.last = self.last + 1;
        self.last
    }
}

/// Requests are numbered one after another, whatever they ask for: from a
/// last id `last`, `n` requests in turn get `last + 1`, ..., `last + n`, all
/// different. From a new numbering they are 1, 2, ..., n.
pub proof fn law_request_ids_count_up(last: u64, n: nat)
    ensures
        request_ids(last, n).len() == n,
        last_after(last, n) == last + n,
        forall|i: int| 0 <= i < n ==> #[trigger] request_ids(last, n)[i] == last + i + 1,
        forall|i: int, j: int|
            0 <= i < j < n ==> #[trigger] request_ids(last, n)[i] != #[trigger] request_ids(
                last,
                n,
            )[j],
    decreases n,
{
    if n > 0 {
        let m = (n - 1) as nat;
        law_request_ids_count_up(last, m);
        let prev = request_ids(last, m);
        assert(request_ids(last, n) == prev.push(last_after(last, m) + 1));
        assert forall|i: int| 0 <= i < n implies #[trigger] request_ids(last, n)[i] == last + i
            + 1 by {
            if i < m {
                assert(prev[i] == last + i + 1);
            }
        }
    }
}

/// An update shows up as the cube's reading and as the newest entry of its
/// history, which stays within `PANEL_HISTORY_LIMIT` entries.
pub proof fn law_update_is_latest(c: CubeView, u: SensorUpdateParams)
    requires
        c.history.len() <= PANEL_HISTORY_LIMIT,
    ensures
        updated(c, u).temperature_bits == u.temperature_bits,
        updated(c, u).humidity_bits == u.humidity_bits,
        updated(c, u).timestamp == u.timestamp,
        updated(c, u).history.last() == update_entry(u),
        updated(c, u).history.last() == (crate::cube::SensorHistoryEntry {
            timestamp: u.timestamp,
            temperature_bits: u.temperature_bits,
            humidity_bits: u.humidity_bits,
        }),
        updated(c, u).history.len() <= PANEL_HISTORY_LIMIT,
        updated(c, u).id == c.id,
        updated(c, u).label == c.label,
{
    law_history_keeps_newest(c.history, update_entry(u), PANEL_HISTORY_LIMIT as nat);
}

/// The selection after cube `clicked` was clicked: clicking the selected
/// cube clears the selection, clicking another selects it.
pub open spec fn toggled(current: Option<Seq<char>>, clicked: Seq<char>) -> Option<Seq<char>> {
    if current == Some(clicked) {
        None
    } else {
        Some(clicked)
    }
}

/// The selection after cube `clicked` was clicked.
pub fn toggle_selection(current: Option<String>, clicked: String) -> (r: Option<String>)
    ensures
        match r {
            Some(s) => toggled(
                match current {
                    Some(c) => Some(c@),
                    None => None,
                },
                clicked@,
            ) == Some(s@),
            None => toggled(
                match current {
                    Some(c) => Some(c@),
                    None => None,
                },
                clicked@,
            ) is None,
        },
{
    match current {
        Some(c) => {
            if str_equals(c.as_str(), clicked.as_str()) {
                None
            } else {
                Some(clicked)
            }
        },
        None => Some(clicked),
    }
}

/// `s` with every non-overlapping occurrence of `pat`, taken from the left,
/// replaced by `rep`.
pub open spec fn replace_all(s: Seq<char>, pat: Seq<char>, rep: Seq<char>) -> Seq<char>
    recommends
        pat.len() > 0,
    decreases s.len(),
{
    if s.len() == 0 || pat.len() == 0 {
        s
    } else if s.len() >= pat.len() && s.subrange(0, pat.len() as int) == pat {
        rep + replace_all(s.subrange(pat.len() as int, s.len() as int), pat, rep)
    } else {
        seq![s[0]] + replace_all(s.drop_first(), pat, rep)
    }
}

/// The label shown for a cube: its own label, or else its id with "cube_"
/// read as "节点".
pub open spec fn display_label_of(cube_id: Seq<char>, label: Seq<char>) -> Seq<char> {
    if label.len() == 0 {
        replace_all(cube_id, "cube_"@, "节点"@)
    } else {
        label
    }
}

/// Whether `pat` occurs in `s` at `i`.
fn occurs_at(s: &str, i: usize, n: usize, pat: &str, m: usize) -> (r: bool)
    requires
        n == s@.len(),
        m == pat@.len(),
        i <= n,
    ensures
        r == (n - i >= m && s@.subrange(i as int, i + m) == pat@),
{
    if n - i < m {
        return false;
    }
    let mut k: usize = 0;
    while k < m
        invariant
            n == s@.len(),
            m == pat@.len(),
            i + m <= n,
            k <= m,
            forall|j: int| 0 <= j < k ==> s@[i + j] == pat@[j],
        decreases m - k,
    {
        if s.get_char(i + k) != pat.get_char(k) {
            assert(s@.subrange(i as int, i + m)[k as int] != pat@[k as int]);
            return false;
        }
        k = k + 1;
    }
    assert(s@.subrange(i as int, i + m) =~= pat@);
    true
}

/// `replace_all` over a suffix, unfolded once.
proof fn lemma_replace_step(s: Seq<char>, i: int, pat: Seq<char>, rep: Seq<char>)
    requires
        0 <= i < s.len(),
        pat.len() > 0,
    ensures
        replace_all(s.subrange(i, s.len() as int), pat, rep) == if s.len() - i >= pat.len()
            && s.subrange(i, i + pat.len()) == pat {
            rep + replace_all(s.subrange(i + pat.len(), s.len() as int), pat, rep)
        } else {
            seq![s[i]] + replace_all(s.subrange(i + 1, s.len() as int), pat, rep)
        },
{
    let t = s.subrange(i, s.len() as int);
    if t.len() >= pat.len() {
        assert(t.subrange(0, pat.len() as int) =~= s.subrange(i, i + pat.len()));
        assert(t.subrange(pat.len() as int, t.len() as int) =~= s.subrange(
            i + pat.len(),
            s.len() as int,
        ));
    }
    assert(t.drop_first() =~= s.subrange(i + 1, s.len() as int));
}

/// The label shown for a cube.
pub fn display_label(cube_id: &str, label: &str) -> (r: String)
    ensures
        r@ == display_label_of(cube_id@, label@),
{
    if label.unicode_len() > 0 {
        return String::from_str(label);
    }
    let pat = "cube_";
    let rep = "节点";
    proof {
        reveal_strlit("cube_");
    }
    let n = cube_id.unicode_len();
    let m = pat.unicode_len();
    let mut out = String::new();
    let mut i: usize = 0;
    assert(cube_id@.subrange(0, n as int) =~= cube_id@);
    assert(out@ + replace_all(cube_id@, pat@, rep@) =~= replace_all(cube_id@, pat@, rep@));
    while i < n
        invariant
            n == cube_id@.len(),
            m == pat@.len(),
            m == 5,
            pat@ == "cube_"@,
            rep@ == "节点"@,
            i <= n,
            out@ + replace_all(cube_id@.subrange(i as int, n as int), pat@, rep@) == replace_all(
                cube_id@,
                pat@,
                rep@,
            ),
        decreases n - i,
    {
        proof {
            lemma_replace_step(cube_id@, i as int, pat@, rep@);
        }
        if occurs_at(cube_id, i, n, pat, m) {
            let ghost before = out@;
            out.append(rep);
            assert(before + (rep@ + replace_all(cube_id@.subrange(i + m, n as int), pat@, rep@))
                =~= out@ + replace_all(cube_id@.subrange(i + m, n as int), pat@, rep@));
            i = i + m;
        } else {
            let ghost before = out@;
            let c = cube_id.get_char(i);
            push_char(&mut out, c);
            assert(before + (seq![c] + replace_all(cube_id@.subrange(i + 1, n as int), pat@, rep@))
                =~= out@ + replace_all(cube_id@.subrange(i + 1, n as int), pat@, rep@));
            i = i + 1;
        }
    }
    assert(cube_id@.subrange(n as int, n as int).len() == 0);
    assert(out@ + Seq::<char>::empty() =~= out@);
    assert(cube_id@.subrange(0, n as int) =~= cube_id@);
    out
}

/// The line under a cube's trend chart: while fewer than two readings are
/// known, a note that data is still being gathered; after that, how many.
pub open spec fn trend_history_text_of(history_len: nat) -> Seq<char> {
    if history_len < 2 {
        "数据采样中，等待更多数据点..."@
    } else {
        "已采集 "@ + decimal(history_len) + " 个数据点"@
    }
}

/// The line under a cube's trend chart, for a history of `history_len`
/// readings.
pub fn trend_history_text(history_len: usize) -> (r: String)
    ensures
        r@ == trend_history_text_of(history_len as nat),
{
    if history_len < 2 {
        return String::from_str("数据采样中，等待更多数据点...");
    }
    let mut out = String::from_str("已采集 ");
    push_decimal(&mut out, history_len as u64);
    out.append(" 个数据点");
    out
}

/// Clicking a cube selects it unless it is the selected one, which clears
/// the selection; so clicking the same cube twice, from no selection, ends
/// with none.
pub proof fn law_click_toggles(current: Option<Seq<char>>, clicked: Seq<char>)
    ensures
        current == Some(clicked) ==> toggled(current, clicked) is None,
        current != Some(clicked) ==> toggled(current, clicked) == Some(clicked),
        toggled(toggled(None, clicked), clicked) is None,
{
}

/// After a snapshot whose cubes have different ids, each of its cubes is
/// stored under its own id as it came, and every other id keeps what it had.
pub proof fn law_snapshot_stores_each_cube(s: Seq<(Seq<char>, CubeView)>, cubes: Seq<CubeView>)
    requires
        forall|i: int, j: int| 0 <= i < j < cubes.len() ==> cubes[i].id != cubes[j].id,
    ensures
        forall|i: int| 0 <= i < cubes.len() ==> after_snapshot(s, cubes, #[trigger] cubes[i].id) == Some(cubes[i]),
        forall|k: Seq<char>|
            (forall|i: int| 0 <= i < cubes.len() ==> cubes[i].id != k) ==> #[trigger] after_snapshot(s, cubes, k)
                == lookup(s, k),
    decreases cubes.len(),
{
    if cubes.len() > 0 {
        let rest = cubes.drop_last();
        law_snapshot_stores_each_cube(s, rest);
        assert forall|i: int| 0 <= i < cubes.len() implies after_snapshot(s, cubes, #[trigger] cubes[i].id)
            == Some(cubes[i]) by {
            if i < rest.len() {
                assert(cubes[i] == rest[i]);
                assert(cubes[i].id != cubes.last().id);
            }
        }
        assert forall|k: Seq<char>|
            (forall|i: int| 0 <= i < cubes.len() ==> cubes[i].id != k) implies #[trigger] after_snapshot(
                s,
                cubes,
                k,
            ) == lookup(s, k) by {
            assert(cubes[cubes.len() - 1].id != k);
            assert forall|i: int| 0 <= i < rest.len() implies rest[i].id != k by {
                assert(rest[i] == cubes[i]);
            }
            assert(after_snapshot(s, cubes, k) == after_snapshot(s, rest, k));
        }
    }
}

/// `replace_all` leaves a text alone when no character of it starts the
/// pattern.
proof fn lemma_replace_none(s: Seq<char>, pat: Seq<char>, rep: Seq<char>)
    requires
        pat.len() > 0,
        forall|i: int| 0 <= i < s.len() ==> s[i] != pat[0],
    ensures
        replace_all(s, pat, rep) == s,
    decreases s.len(),
{
    if s.len() > 0 {
        if s.len() >= pat.len() {
            assert(s.subrange(0, pat.len() as int)[0] != pat[0]);
        }
        lemma_replace_none(s.drop_first(), pat, rep);
        assert(seq![s[0]] + s.drop_first() =~= s);
    }
}

/// A cube without a label is shown under its id with "cube_" read as "节点":
/// "cube_3" is shown as "节点3". A cube with a label is shown under it.
pub proof fn law_label_of_unlabelled_cube(rest: Seq<char>, label: Seq<char>)
    requires
        forall|i: int| 0 <= i < rest.len() ==> rest[i] != 'c',
    ensures
        label.len() > 0 ==> display_label_of("cube_"@ + rest, label) == label,
        display_label_of("cube_"@ + rest, Seq::empty()) == "节点"@ + rest,
{
    reveal_strlit("cube_");
    let id = "cube_"@ + rest;
    assert(id.subrange(0, 5) =~= "cube_"@);
    assert(id.subrange(5, id.len() as int) =~= rest);
    lemma_replace_none(rest, "cube_"@, "节点"@);
}

} // verus!
