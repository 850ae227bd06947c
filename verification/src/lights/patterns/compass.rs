//! Draws every known peer at the LED that best shows where it is: the angle
//! of the LED stands for the bearing to the peer, its radius for the
//! distance.
use vstd::prelude::*;
use crate::arduino::magnitude;
use crate::lights::color::{hsv2rgb, hsv2rgb_color, Rgb8};
use crate::lights::focalintent::{fade_to_black_by, spec_fade_color};
use crate::lights::patterns::{angle, led_angle, led_radius, radius};
use crate::network::{NetworkData, NetworkView};
use crate::{MAX_PEERS, NUM_LEDS};

verus! {

/// A full turn of the bearing, which is counted in hundredths of a degree.
pub const FULL_TURN: u32 = 36000;

/// Half a turn of the bearing.
pub const HALF_TURN: u32 = 18000;

/// Number of LEDs that the grouping of peers has room for.
pub const LED_GROUPS_CAPACITY: usize = 16;

/// Where a peer lies as seen from the local node.
#[derive(Clone, Copy, Debug)]
pub struct Course {
    /// Clockwise from north, in hundredths of a degree, at most a full turn.
    pub bearing: u32,
    /// In the unit of the compass's `max_distance`.
    pub distance: i32,
}

/// The compass pattern.
#[derive(Clone, Copy, Debug)]
pub struct Compass {
    pub background_fade: u8,
    /// The distance shown at the rim of the array; anything farther is
    /// drawn at the rim too.
    pub max_distance: u32,
    /// How long each of several peers on one LED is shown before the next.
    pub ms_per_color: u32,
}

/// The bearing on the scale of the layout tables, from 0 to 255. A negative
/// distance means the opposite direction.
pub open spec fn spec_scaled_bearing(bearing: u32, distance: i32) -> int {
    let facing = if distance < 0 {
        (bearing + HALF_TURN) % (FULL_TURN as int)
    } else {
        bearing as int
    };
    facing * 255 / (FULL_TURN as int)
}

/// The distance on the scale of the layout tables, from 0 to 255, where
/// `max_distance` and all beyond it is 255.
pub open spec fn spec_scaled_distance(distance: i32, max_distance: u32) -> int {
    let length = magnitude(distance as int);
    let limited = if length >= max_distance {
        max_distance as int
    } else {
        length
    };
    limited * 255 / (max_distance as int)
}

/// How far the LED `led` lies from the scaled bearing and distance: the sum
/// of the differences in angle and in radius.
pub open spec fn gap(bearing: int, distance: int, led: int) -> int {
    magnitude(bearing - angle(led)) + magnitude(distance - radius(led))
}

/// `led` is the LED with the smallest gap, and the first of those.
pub open spec fn is_nearest_led(bearing: int, distance: int, led: int) -> bool {
    &&& 0 <= led < NUM_LEDS
    &&& forall|i: int| 0 <= i < NUM_LEDS ==> gap(bearing, distance, led) <= #[trigger] gap(bearing, distance, i)
    &&& forall|i: int| 0 <= i < led ==> gap(bearing, distance, led) < #[trigger] gap(bearing, distance, i)
}

/// The LED nearest to a scaled bearing and distance.
pub open spec fn spec_nearest_led(bearing: int, distance: int) -> int {
    choose|led: int| is_nearest_led(bearing, distance, led)
}

/// The LED that shows a peer at `bearing` and `distance`.
pub open spec fn spec_bearing_and_distance_to_id(bearing: u32, distance: i32, max_distance: u32) -> int {
    spec_nearest_led(
        spec_scaled_bearing(bearing, distance),
        spec_scaled_distance(distance, max_distance),
    )
}

/// The nearest LED is unique: equal bearing and distance always lead to the
/// same LED.
pub proof fn lemma_nearest_led_unique(bearing: int, distance: int, a: int, b: int)
    requires
        is_nearest_led(bearing, distance, a),
        is_nearest_led(bearing, distance, b),
    ensures
        a == b,
        a == spec_nearest_led(bearing, distance),
{
    if a < b {
        assert(gap(bearing, distance, b) < gap(bearing, distance, a));
    } else if b < a {
        assert(gap(bearing, distance, a) < gap(bearing, distance, b));
    }
    let c = spec_nearest_led(bearing, distance);
    if a < c {
        assert(gap(bearing, distance, c) < gap(bearing, distance, a));
    } else if c < a {
        assert(gap(bearing, distance, a) < gap(bearing, distance, c));
    }
}

/// The difference of two table values.
fn difference(a: u8, b: u8) -> (d: u16)
    ensures
        d == magnitude(a - b),
{
    if a > b {
        (a - b) as u16
    } else {
        (b - a) as u16
    }
}

/// The gap between the LED `led` and a scaled bearing and distance.
fn led_gap(bearing: u8, distance: u8, led: usize) -> (g: u16)
    requires
        led < NUM_LEDS,
    ensures
        g == gap(bearing as int, distance as int, led as int),
        g <= 510,
{
    let bearing_gap = difference(bearing, led_angle(led));
    let distance_gap = difference(distance, led_radius(led));
    bearing_gap + distance_gap
}

/// Finds the LED whose angle and radius are nearest to a scaled bearing and
/// distance. Of several that are equally near, the first on the strip wins.
pub fn nearest_led(bearing: u8, distance: u8) -> (best: usize)
    ensures
        is_nearest_led(bearing as int, distance as int, best as int),
        best == spec_nearest_led(bearing as int, distance as int),
{
    let mut best_gap: u16 = u16::MAX;
    let mut best_i: usize = 0;
    let mut i: usize = 0;
    while i < NUM_LEDS
        invariant
            i <= NUM_LEDS,
            i == 0 ==> best_gap == u16::MAX && best_i == 0,
            i > 0 ==> best_i < i && best_gap == gap(bearing as int, distance as int, best_i as int),
            forall|j: int| 0 <= j < i ==> best_gap <= #[trigger] gap(bearing as int, distance as int, j),
            forall|j: int| 0 <= j < best_i ==> best_gap < #[trigger] gap(bearing as int, distance as int, j),
        decreases NUM_LEDS - i,
    {
        let gap = led_gap(bearing, distance, i);
        if gap < best_gap {
            best_i = i;
            best_gap = gap;
        }
        i += 1;
    }
    proof {
        lemma_nearest_led_unique(bearing as int, distance as int, best_i as int, best_i as int);
    }
    best_i
}

/// Finds the LED that shows a peer at `bearing`, in hundredths of a degree,
/// and `distance`. The bearing is scaled from a full turn to the 256 steps
/// of the layout's angles; the distance is limited to `max_distance` and
/// scaled to the 256 steps of its radii. A negative distance stands for its
/// magnitude in the opposite direction.
pub fn bearing_and_distance_to_id(bearing: u32, distance: i32, max_distance: u32) -> (id: usize)
    requires
        bearing <= FULL_TURN,
        max_distance > 0,
    ensures
        id == spec_bearing_and_distance_to_id(bearing, distance, max_distance),
        is_nearest_led(
            spec_scaled_bearing(bearing, distance),
            spec_scaled_distance(distance, max_distance),
            id as int,
        ),
        id < NUM_LEDS,
{
    let facing: u32 = if distance < 0 {
        (bearing + HALF_TURN) % FULL_TURN
    } else {
        bearing
    };
    let length: u32 = if distance < 0 {
        (-(distance as i64)) as u32
    } else {
        distance as u32
    };
    let limited: u32 = if length >= max_distance {
        max_distance
    } else {
        length
    };
    assert(limited * 255 / (max_distance as int) <= 255) by (nonlinear_arith)
        requires
            0 <= limited <= max_distance,
            max_distance > 0,
    ;
    let scaled_bearing = (facing as u64 * 255 / FULL_TURN as u64) as u8;
    let scaled_distance = (limited as u64 * 255 / max_distance as u64) as u8;
    nearest_led(scaled_bearing, scaled_distance)
}

/// Peers grouped by the LED they are drawn on: a
/// `heapless::FnvIndexMap` from the LED to the ids of its peers.
#[verifier::external_body]
pub struct LedGroups {
    map: heapless::FnvIndexMap<usize, Vec<usize>, heapless::consts::U16>,
}

/// What a grouping holds: for each LED that has peers, their ids.
pub uninterp spec fn led_groups(groups: LedGroups) -> Map<usize, Seq<usize>>;

/// The grouping that holds no LED.
pub open spec fn no_groups() -> Map<usize, Seq<usize>> {
    Map::empty()
}

/// `heapless::FnvIndexMap::new`: an empty grouping.
#[verifier::external_body]
fn led_groups_new() -> (groups: LedGroups)
    ensures
        led_groups(groups) == no_groups(),
{
    LedGroups { map: heapless::FnvIndexMap::new() }
}

/// `heapless::IndexMap::get`: a copy of the peers of `led`, if it has any.
#[verifier::external_body]
fn led_groups_get(groups: &LedGroups, led: usize) -> (peers: Option<Vec<usize>>)
    ensures
        peers.is_some() == led_groups(*groups).contains_key(led),
        peers matches Some(found) ==> found@ == led_groups(*groups)[led],
{
    groups.map.get(&led).cloned()
}

/// `heapless::IndexMap::insert`: sets the peers of `led`. The map refuses
/// an insertion once it holds as many LEDs as it has room for, so the call
/// requires that it holds fewer.
#[verifier::external_body]
fn led_groups_insert(groups: &mut LedGroups, led: usize, peers: Vec<usize>)
    requires
        led_groups(*old(groups)).dom().finite(),
        led_groups(*old(groups)).dom().len() < LED_GROUPS_CAPACITY,
    ensures
        led_groups(*final(groups)) == led_groups(*old(groups)).insert(led, peers@),
{
    let _ = groups.map.insert(led, peers);
}

/// `heapless::IndexMap::keys`: the LEDs that have peers, each once.
#[verifier::external_body]
fn led_groups_leds(groups: &LedGroups) -> (leds: Vec<usize>)
    ensures
        leds@.no_duplicates(),
        forall|led: usize| leds@.contains(led) <==> led_groups(*groups).contains_key(led),
{
    groups.map.keys().copied().collect()
}

/// The LED that the peer `id` is drawn on: the local node at the centre,
/// another peer where its course points, and no LED for a peer of which the
/// table holds no entry or whose course is not known.
pub open spec fn led_of(
    data: NetworkView,
    courses: Seq<Option<Course>>,
    max_distance: u32,
    id: int,
) -> Option<int> {
    if id == data.my_peer_id {
        Some(0)
    } else if data.peer_locations[id].is_some() && courses[id].is_some() {
        Some(
            spec_bearing_and_distance_to_id(
                courses[id].unwrap().bearing,
                courses[id].unwrap().distance,
                max_distance,
            ),
        )
    } else {
        None
    }
}

/// The peers other than the local node with an id below `upto` that are
/// drawn on `led`, by rising id.
pub open spec fn others_on(
    data: NetworkView,
    courses: Seq<Option<Course>>,
    max_distance: u32,
    led: int,
    upto: int,
) -> Seq<usize>
    decreases upto,
{
    if upto <= 0 {
        Seq::empty()
    } else {
        let before = others_on(data, courses, max_distance, led, upto - 1);
        if upto - 1 != data.my_peer_id && led_of(data, courses, max_distance, upto - 1) == Some(
            led,
        ) {
            before.push((upto - 1) as usize)
        } else {
            before
        }
    }
}

/// The peers with an id below `upto` that are drawn on `led`: the local
/// node first, then the others by rising id.
pub open spec fn peers_on(
    data: NetworkView,
    courses: Seq<Option<Course>>,
    max_distance: u32,
    led: int,
    upto: int,
) -> Seq<usize> {
    let own = if led == 0 {
        seq![data.my_peer_id]
    } else {
        Seq::empty()
    };
    own + others_on(data, courses, max_distance, led, upto)
}

/// Which of the peers on one LED is drawn at `now`: the only one, or each
/// in turn for `ms_per_color` milliseconds.
pub open spec fn drawn_peer(peers: Seq<usize>, now: u32, ms_per_color: u32) -> usize {
    if peers.len() == 1 {
        peers[0]
    } else {
        peers[(now as int / ms_per_color as int) % (peers.len() as int)]
    }
}

impl Compass {
    /// The colour cycle needs a period, and the distance scale a length.
    pub open spec fn wf(&self) -> bool {
        self.max_distance > 0 && self.ms_per_color > 0
    }

    pub fn new(background_fade: u8, max_distance: u32, ms_per_color: u32) -> (compass: Self)
        ensures
            compass.background_fade == background_fade,
            compass.max_distance == max_distance,
            compass.ms_per_color == ms_per_color,
    {
        Compass { background_fade, max_distance, ms_per_color }
    }

    /// The colour of `led` after the compass was drawn at `now` over the
    /// colour `before`: the colour of the peer drawn there, at full
    /// brightness, or `before` dimmed by the background fade where no peer
    /// is drawn.
    pub open spec fn led_color(
        &self,
        now: u32,
        before: Rgb8,
        data: NetworkView,
        courses: Seq<Option<Course>>,
        led: int,
    ) -> Rgb8 {
        let peers = peers_on(data, courses, self.max_distance, led, MAX_PEERS as int);
        if data.peer_locations[data.my_peer_id as int].is_some() && peers.len() > 0 {
            let location = data.peer_locations[drawn_peer(
                peers,
                now,
                self.ms_per_color,
            ) as int].unwrap().location;
            hsv2rgb_color(location.hue, location.sat, 255)
        } else {
            spec_fade_color(before, self.background_fade)
        }
    }

    /// Draws the peers of `network_data` at `now`. `courses` holds for each
    /// peer id the bearing and distance from the local position to that
    /// peer, where they are known.
    ///
    /// The whole array is dimmed first. Unless the local node has no
    /// position yet, the local node is then drawn at the centre and every
    /// other peer with an entry and a course at its nearest LED, in the
    /// peer's own colour. Where several peers share an LED, they take
    /// turns.
    pub fn buffer(
        &mut self,
        now: u32,
        leds: &mut [Rgb8],
        network_data: &NetworkData,
        courses: &[Option<Course>; MAX_PEERS],
    )
        requires
            old(self).wf(),
            network_data.wf(),
            old(leds)@.len() == NUM_LEDS,
            forall|id: int|
                0 <= id < MAX_PEERS ==> (#[trigger] courses@[id] matches Some(course)
                    ==> course.bearing <= FULL_TURN),
        ensures
            *final(self) == *old(self),
            final(leds)@.len() == NUM_LEDS,
            forall|led: int|
                0 <= led < NUM_LEDS ==> #[trigger] final(leds)@[led] == old(self).led_color(
                    now,
                    old(leds)@[led],
                    network_data@,
                    courses@,
                    led,
                ),
    {
        let my_peer_id = network_data.my_peer_id;
        fade_to_black_by(leds, self.background_fade);
        let ghost faded = leds@;
        if network_data.peer_locations[my_peer_id].is_none() {
            return ;
        }
        let mut groups = led_groups_new();
        let mut own: Vec<usize> = Vec::new();
        own.push(my_peer_id);
        led_groups_insert(&mut groups, 0, own);
        let ghost data = network_data@;
        let ghost max_distance = self.max_distance;
        let mut id: usize = 0;
        proof {
            assert(led_groups(groups).dom() =~= set![0usize]);
            assert forall|led: usize|
                led_groups(groups).contains_key(led) == (peers_on(
                    data,
                    courses@,
                    max_distance,
                    led as int,
                    0,
                ).len() > 0) by {}
            assert(led_groups(groups)[0] =~= peers_on(data, courses@, max_distance, 0, 0));
        }
        while id < MAX_PEERS
            invariant
                id <= MAX_PEERS,
                self.wf(),
                network_data.wf(),
                data == network_data@,
                max_distance == self.max_distance,
                my_peer_id == network_data.my_peer_id,
                forall|i: int|
                    0 <= i < MAX_PEERS ==> (#[trigger] courses@[i] matches Some(course)
                        ==> course.bearing <= FULL_TURN),
                led_groups(groups).dom().finite(),
                led_groups(groups).dom().len() <= id + 1,
                forall|led: usize| #[trigger]
                    led_groups(groups).contains_key(led) ==> led < NUM_LEDS,
                forall|led: usize| #[trigger]
                    led_groups(groups).contains_key(led) == (peers_on(
                        data,
                        courses@,
                        max_distance,
                        led as int,
                        id as int,
                    ).len() > 0),
                forall|led: usize| #[trigger]
                    led_groups(groups).contains_key(led) ==> led_groups(groups)[led] == peers_on(
                        data,
                        courses@,
                        max_distance,
                        led as int,
                        id as int,
                    ),
            decreases MAX_PEERS - id,
        {
            let mut placed: Ghost<Option<usize>> = Ghost(None);
            if id != my_peer_id {
                if network_data.peer_locations[id].is_some() {
                    if let Some(course) = courses[id] {
                        let led = bearing_and_distance_to_id(
                            course.bearing,
                            course.distance,
                            self.max_distance,
                        );
                        let mut peers = match led_groups_get(&groups, led) {
                            Some(found) => found,
                            None => Vec::new(),
                        };
                        peers.push(id);
                        led_groups_insert(&mut groups, led, peers);
                        proof {
                            placed@ = Some(led);
                        }
                    }
                }
            }
            proof {
                let after = led_groups(groups);
                assert forall|led: usize|
                    after.contains_key(led) == (peers_on(
                        data,
                        courses@,
                        max_distance,
                        led as int,
                        id + 1,
                    ).len() > 0) && (after.contains_key(led) ==> after[led] == peers_on(
                        data,
                        courses@,
                        max_distance,
                        led as int,
                        id + 1,
                    )) by {
                    let was = peers_on(data, courses@, max_distance, led as int, id as int);
                    let is = peers_on(data, courses@, max_distance, led as int, id + 1);
                    if placed@ == Some(led) {
                        assert(led_of(data, courses@, max_distance, id as int) == Some(led as int));
                        assert(is =~= was.push(id));
                    } else {
                        assert(led_of(data, courses@, max_distance, id as int) != Some(led as int)
                            || id == data.my_peer_id);
                        assert(is =~= was);
                    }
                }
            }
            id += 1;
        }
        let lit = led_groups_leds(&groups);
        let mut k: usize = 0;
        while k < lit.len()
            invariant
                k <= lit.len(),
                self.wf(),
                network_data.wf(),
                data == network_data@,
                max_distance == self.max_distance,
                leds@.len() == NUM_LEDS,
                faded.len() == NUM_LEDS,
                data.peer_locations[data.my_peer_id as int].is_some(),
                lit@.no_duplicates(),
                forall|led: usize| lit@.contains(led) <==> led_groups(groups).contains_key(led),
                forall|led: usize| #[trigger]
                    led_groups(groups).contains_key(led) ==> led < NUM_LEDS,
                forall|led: usize| #[trigger]
                    led_groups(groups).contains_key(led) == (peers_on(
                        data,
                        courses@,
                        max_distance,
                        led as int,
                        MAX_PEERS as int,
                    ).len() > 0),
                forall|led: usize| #[trigger]
                    led_groups(groups).contains_key(led) ==> led_groups(groups)[led] == peers_on(
                        data,
                        courses@,
                        max_distance,
                        led as int,
                        MAX_PEERS as int,
                    ),
                forall|led: int|
                    0 <= led < NUM_LEDS ==> #[trigger] leds@[led] == if exists|j: int|
                        0 <= j < k && lit@[j] == led {
                        self.led_color(now, faded[led], data, courses@, led)
                    } else {
                        faded[led]
                    },
            decreases lit.len() - k,
        {
            let led = lit[k];
            assert(lit@.contains(led));
            let peers = match led_groups_get(&groups, led) {
                Some(found) => found,
                None => Vec::new(),
            };
            proof {
                lemma_peers_are_known(data, courses@, max_distance, led as int, MAX_PEERS as int);
            }
            let drawn_peer_id = if peers.len() == 1 {
                peers[0]
            } else {
                let color_id = (now / self.ms_per_color) as usize % peers.len();
                peers[color_id]
            };
            assert(peers@.contains(drawn_peer_id));
            if let Some(entry) = network_data.peer_locations[drawn_peer_id] {
                leds[led] = hsv2rgb(entry.location.hue, entry.location.sat, 255);
            }
            proof {
                assert forall|other: int| 0 <= other < NUM_LEDS implies #[trigger] leds@[other]
                    == if exists|j: int| 0 <= j < k + 1 && lit@[j] == other {
                    self.led_color(now, faded[other], data, courses@, other)
                } else {
                    faded[other]
                } by {
                    if other == led {
                        assert(lit@[k as int] == other);
                    } else {
                        assert((exists|j: int| 0 <= j < k + 1 && lit@[j] == other) == (exists|
                            j: int,
                        |
                            0 <= j < k && lit@[j] == other));
                    }
                }
            }
            k += 1;
        }
        proof {
            assert forall|led: int| 0 <= led < NUM_LEDS implies #[trigger] leds@[led]
                == self.led_color(now, old(leds)@[led], data, courses@, led) by {
                let peers = peers_on(data, courses@, max_distance, led, MAX_PEERS as int);
                assert(led_groups(groups).contains_key(led as usize) == (peers.len() > 0));
                if exists|j: int| 0 <= j < lit@.len() && lit@[j] == led {
                    let j = choose|j: int| 0 <= j < lit@.len() && lit@[j] == led;
                    assert(lit@.contains(led as usize));
                    assert(peers.len() > 0);
                } else {
                    if lit@.contains(led as usize) {
                        let j = choose|j: int| 0 <= j < lit@.len() && lit@[j] == led as usize;
                        assert(lit@[j] == led);
                    }
                    assert(peers.len() == 0);
                    assert(faded[led] == spec_fade_color(old(leds)@[led], self.background_fade));
                }
            }
        }
    }
}

/// Every peer other than the local node that is drawn on an LED has an
/// entry in the table.
pub proof fn lemma_others_are_known(
    data: NetworkView,
    courses: Seq<Option<Course>>,
    max_distance: u32,
    led: int,
    upto: int,
)
    requires
        0 <= upto <= MAX_PEERS,
    ensures
        forall|i: int|
            0 <= i < others_on(data, courses, max_distance, led, upto).len() ==> {
                let id = #[trigger] others_on(data, courses, max_distance, led, upto)[i];
                id < upto && data.peer_locations[id as int].is_some()
            },
    decreases upto,
{
    if upto > 0 {
        lemma_others_are_known(data, courses, max_distance, led, upto - 1);
    }
}

/// Every peer that is drawn on an LED has an entry in the table.
pub proof fn lemma_peers_are_known(
    data: NetworkView,
    courses: Seq<Option<Course>>,
    max_distance: u32,
    led: int,
    upto: int,
)
    requires
        data.wf(),
        data.peer_locations[data.my_peer_id as int].is_some(),
        0 <= upto <= MAX_PEERS,
    ensures
        forall|i: int|
            0 <= i < peers_on(data, courses, max_distance, led, upto).len() ==> {
                let id = #[trigger] peers_on(data, courses, max_distance, led, upto)[i];
                id < MAX_PEERS && data.peer_locations[id as int].is_some()
            },
{
    lemma_others_are_known(data, courses, max_distance, led, upto);
    let others = others_on(data, courses, max_distance, led, upto);
    let peers = peers_on(data, courses, max_distance, led, upto);
    assert forall|i: int| 0 <= i < peers.len() implies {
        let id = #[trigger] peers[i];
        id < MAX_PEERS && data.peer_locations[id as int].is_some()
    } by {
        if led == 0 {
            if i > 0 {
                assert(peers[i] == others[i - 1]);
            }
        } else {
            assert(peers[i] == others[i]);
        }
    }
}

} // verus!
