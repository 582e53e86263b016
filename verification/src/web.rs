//! What the web page shows and asks for.
//!
//! The page is rendered from `WebState`. Its forms become commands; an event
//! stream keeps the controller cards of each open page up to date.

use std::collections::HashMap;

use vstd::prelude::*;

use crate::models::Command;
use crate::search;
use crate::text;
use crate::text::parse_number;

verus! {

/// Shortest vibration that the page asks for, in milliseconds.
pub const MIN_PAGE_VIBRATION_MS: u64 = 1;

/// Longest vibration that the page asks for, in milliseconds.
pub const MAX_PAGE_VIBRATION_MS: u64 = 5000;

/// The number in a form field, if there is one that fits.
pub open spec fn field_number(field: Option<&str>, max: nat) -> Option<nat> {
    match field {
        Some(s) => text::parsed(s@, max),
        None => None,
    }
}

fn read_field(field: Option<&str>, max: u64) -> (number: Option<u64>)
    ensures
        match number {
            Some(n) => field_number(field, max as nat) == Some(n as nat),
            None => field_number(field, max as nat) is None,
        },
{
    match field {
        Some(s) => parse_number(s, max),
        None => None,
    }
}

fn read_index(field: Option<&str>) -> (number: Option<usize>)
    ensures
        match number {
            Some(n) => field_number(field, usize::MAX as nat) == Some(n as nat),
            None => field_number(field, usize::MAX as nat) is None,
        },
{
    match read_field(field, usize::MAX as u64) {
        Some(n) => Some(n as usize),
        None => None,
    }
}

/// What the identify form asks for.
pub open spec fn identify_request(controller_id: Option<&str>) -> Option<Command> {
    match field_number(controller_id, usize::MAX as nat) {
        Some(id) => Some(Command::Identify { controller_id: id as usize }),
        None => None,
    }
}

/// The command of the identify form.
pub fn identify_command(controller_id: Option<&str>) -> (command: Option<Command>)
    ensures
        command == identify_request(controller_id),
{
    match read_index(controller_id) {
        Some(controller_id) => Some(Command::Identify { controller_id }),
        None => None,
    }
}

/// `ms` brought into the range that the page may ask for.
pub open spec fn page_duration(ms: nat) -> u64 {
    if ms < MIN_PAGE_VIBRATION_MS {
        MIN_PAGE_VIBRATION_MS
    } else if ms > MAX_PAGE_VIBRATION_MS {
        MAX_PAGE_VIBRATION_MS
    } else {
        ms as u64
    }
}

/// What the vibrate form asks for.
pub open spec fn vibrate_request(
    controller_id: Option<&str>,
    duration_ms: Option<&str>,
) -> Option<Command> {
    match (
        field_number(controller_id, usize::MAX as nat),
        field_number(duration_ms, u64::MAX as nat),
    ) {
        (Some(id), Some(ms)) => Some(
            Command::Vibrate { controller_id: id as usize, duration_ms: page_duration(ms) },
        ),
        _ => None,
    }
}

/// The command of the vibrate form.
pub fn vibrate_command(controller_id: Option<&str>, duration_ms: Option<&str>) -> (command: Option<
    Command,
>)
    ensures
        command == vibrate_request(controller_id, duration_ms),
{
    let id = read_index(controller_id);
    let duration = read_field(duration_ms, u64::MAX);
    match (id, duration) {
        (Some(controller_id), Some(ms)) => {
            let duration_ms: u64 = if ms < MIN_PAGE_VIBRATION_MS {
                MIN_PAGE_VIBRATION_MS
            } else if ms > MAX_PAGE_VIBRATION_MS {
                MAX_PAGE_VIBRATION_MS
            } else {
                ms
            };
            Some(Command::Vibrate { controller_id, duration_ms })
        },
        _ => None,
    }
}

/// What the remap form asks for.
pub open spec fn remap_request(controller_id: Option<&str>, new_slot: Option<&str>) -> Option<
    Command,
> {
    match (
        field_number(controller_id, usize::MAX as nat),
        field_number(new_slot, usize::MAX as nat),
    ) {
        (Some(id), Some(slot)) => Some(
            Command::Remap { controller_id: id as usize, new_slot: slot as usize },
        ),
        _ => None,
    }
}

/// The command of the remap form.
pub fn remap_command(controller_id: Option<&str>, new_slot: Option<&str>) -> (command: Option<
    Command,
>)
    ensures
        command == remap_request(controller_id, new_slot),
{
    match (read_index(controller_id), read_index(new_slot)) {
        (Some(controller_id), Some(new_slot)) => Some(Command::Remap { controller_id, new_slot }),
        _ => None,
    }
}

/// What the page says of a battery byte.
pub open spec fn battery_text(battery: u8) -> Seq<char> {
    if battery % 2 == 1 {
        "wired"@
    } else {
        text::decimal((battery / 0x20) as nat) + "/4"@ + if (battery / 0x10) % 2 == 1 {
            " charging"@
        } else {
            ""@
        }
    }
}

/// Describe a battery byte.
pub fn battery_label(battery: u8) -> (label: String)
    ensures
        label@ == battery_text(battery),
{
    let level: u8 = battery / 0x20;
    let charging: bool = (battery / 0x10) % 2 == 1;
    let wired: bool = battery % 2 == 1;
    if wired {
        "wired".to_owned()
    } else {
        let mut label = String::new();
        text::append_number(&mut label, level as u64);
        assert(label@ =~= text::decimal(level as nat));
        label.append("/4");
        label.append(
            if charging {
                " charging"
            } else {
                ""
            },
        );
        label
    }
}

/// A file that the page is made of.
#[derive(Clone, Copy, Debug, PartialEq, Eq, Structural)]
pub enum Asset {
    Htmx,
    HtmxSse,
    Alpine,
    Style,
}

/// The name that a file is served under.
pub open spec fn asset_name(asset: Asset) -> Seq<char> {
    match asset {
        Asset::Htmx => "htmx.min.js"@,
        Asset::HtmxSse => "htmx-ext-sse.min.js"@,
        Asset::Alpine => "alpine.min.js"@,
        Asset::Style => "style.css"@,
    }
}

/// The content type that a file is served with.
pub open spec fn asset_mime(asset: Asset) -> Seq<char> {
    if asset == Asset::Style {
        "text/css"@
    } else {
        "text/javascript"@
    }
}

/// Find a file by its name.
pub fn static_asset(file: &str) -> (asset: Option<Asset>)
    ensures
        match asset {
            Some(found) => file@ == asset_name(found),
            None => forall|a: Asset| file@ != #[trigger] asset_name(a),
        },
{
    let name = file.to_owned();
    if name == "htmx.min.js".to_owned() {
        Some(Asset::Htmx)
    } else if name == "htmx-ext-sse.min.js".to_owned() {
        Some(Asset::HtmxSse)
    } else if name == "alpine.min.js".to_owned() {
        Some(Asset::Alpine)
    } else if name == "style.css".to_owned() {
        Some(Asset::Style)
    } else {
        None
    }
}

/// No two files share a name, so a name finds at most one.
pub proof fn law_asset_names_distinct(a: Asset, b: Asset)
    requires
        asset_name(a) == asset_name(b),
    ensures
        a == b,
{
    reveal_strlit("htmx.min.js");
    reveal_strlit("htmx-ext-sse.min.js");
    reveal_strlit("alpine.min.js");
    reveal_strlit("style.css");
    assert("htmx.min.js"@.len() == 11);
    assert("htmx-ext-sse.min.js"@.len() == 19);
    assert("alpine.min.js"@.len() == 13);
    assert("style.css"@.len() == 9);
}

impl Asset {
    /// Name of the file.
    pub fn name(&self) -> (name: &'static str)
        ensures
            name@ == asset_name(*self),
    {
        match self {
            Asset::Htmx => "htmx.min.js",
            Asset::HtmxSse => "htmx-ext-sse.min.js",
            Asset::Alpine => "alpine.min.js",
            Asset::Style => "style.css",
        }
    }

    /// Content type of the file.
    pub fn mime(&self) -> (mime: &'static str)
        ensures
            mime@ == asset_mime(*self),
    {
        match self {
            Asset::Style => "text/css",
            _ => "text/javascript",
        }
    }
}

/// The text of each card, by controller number.
pub open spec fn texts(map: Map<usize, String>) -> Map<usize, Seq<char>> {
    Map::new(|id: usize| map.dom().contains(id), |id: usize| map[id]@)
}

/// The texts of the first `n` cards. Of two cards with one number the later
/// one counts.
pub open spec fn cards(ids: Seq<usize>, readouts: Seq<String>, n: int) -> Map<usize, Seq<char>>
    decreases n,
{
    if n <= 0 {
        Map::empty()
    } else {
        cards(ids, readouts, n - 1).insert(ids[n - 1], readouts[n - 1]@)
    }
}

/// A card that the page has to replace: its number and its new text.
pub type CardUpdate = (usize, Seq<char>);

/// The cards among the first `n` whose text is not the one in `shown`, in
/// order, each once.
pub open spec fn changed_cards(
    ids: Seq<usize>,
    current: Map<usize, Seq<char>>,
    shown: Map<usize, Seq<char>>,
    n: int,
) -> Seq<CardUpdate>
    decreases n,
{
    if n <= 0 {
        Seq::empty()
    } else {
        let before = changed_cards(ids, current, shown, n - 1);
        let id = ids[n - 1];
        let known = shown_after(ids, current, shown, n - 1);
        if known.dom().contains(id) && known[id] == current[id] {
            before
        } else {
            before.push((id, current[id]))
        }
    }
}

/// The cards that the page shows once the first `n` are brought up to date.
pub open spec fn shown_after(
    ids: Seq<usize>,
    current: Map<usize, Seq<char>>,
    shown: Map<usize, Seq<char>>,
    n: int,
) -> Map<usize, Seq<char>>
    decreases n,
{
    if n <= 0 {
        shown
    } else {
        shown_after(ids, current, shown, n - 1).insert(ids[n - 1], current[ids[n - 1]])
    }
}

/// What is pushed to a page.
#[derive(Debug)]
pub enum SseUpdate {
    /// All cards anew, with their controls.
    Pads,
    /// The readouts of these cards.
    Readouts(Vec<(usize, String)>),
}

/// Numbers and texts of a list of readouts.
pub open spec fn updates_view(updates: Seq<(usize, String)>) -> Seq<CardUpdate> {
    Seq::new(updates.len(), |i: int| (updates[i].0, updates[i].1@))
}

/// The cards that one page shows.
#[derive(Debug)]
pub struct SseClient {
    /// Controller numbers of the cards, once they were sent.
    pub ids: Option<Vec<usize>>,
    pub readouts: HashMap<usize, String>,
}

impl SseClient {
    /// The texts that the page shows.
    pub open spec fn shown(self) -> Map<usize, Seq<char>> {
        texts(self.readouts@)
    }

    /// The page shows a text for exactly the cards that were sent.
    pub open spec fn wf(self) -> bool {
        match self.ids {
            Some(ids) => forall|id: usize|
                #[trigger] self.readouts@.dom().contains(id) <==> ids@.contains(id),
            None => true,
        }
    }

    /// The page shows the cards of the controllers `ids`, in this order.
    pub open spec fn shows_cards_of(self, ids: Seq<usize>) -> bool {
        self.ids matches Some(sent) && sent@ == ids
    }

    /// A page that nothing was sent to yet.
    pub fn new() -> (client: Self)
        ensures
            client.ids is None,
            client.shown() == Map::<usize, Seq<char>>::empty(),
            client.wf(),
    {
        broadcast use vstd::std_specs::hash::group_hash_axioms;

        let client = SseClient { ids: None, readouts: HashMap::new() };
        assert(client.shown() =~= Map::<usize, Seq<char>>::empty());
        client
    }
}

/// Put the readouts into a map.
fn readout_map(ids: &Vec<usize>, readouts: Vec<String>) -> (map: HashMap<usize, String>)
    requires
        ids@.len() == readouts@.len(),
    ensures
        texts(map@) == cards(ids@, readouts@, ids@.len() as int),
        forall|id: usize| #[trigger] map@.dom().contains(id) <==> ids@.contains(id),
{
    broadcast use vstd::std_specs::hash::group_hash_axioms;

    let mut map: HashMap<usize, String> = HashMap::new();
    let mut i: usize = 0;
    assert(texts(map@) =~= cards(ids@, readouts@, 0));
    while i < ids.len()
        invariant
            i <= ids@.len(),
            ids@.len() == readouts@.len(),
            texts(map@) == cards(ids@, readouts@, i as int),
            forall|id: usize| #[trigger] map@.dom().contains(id) <==> ids@.take(i as int).contains(id),
        decreases ids@.len() - i,
    {
        let ghost before = map@;
        map.insert(ids[i], readouts[i].clone());
        i += 1;
        proof {
            assert(texts(map@) =~= texts(before).insert(ids@[i - 1], readouts@[i - 1]@));
            let seen = ids@.take(i - 1);
            assert(ids@.take(i as int) =~= seen.push(ids@[i - 1]));
            assert forall|id: usize| #[trigger] map@.dom().contains(id) <==> ids@.take(
                i as int,
            ).contains(id) by {
                if seen.contains(id) {
                    let k = choose|k: int| 0 <= k < seen.len() && seen[k] == id;
                    assert(seen.push(ids@[i - 1])[k] == id);
                }
                assert(seen.push(ids@[i - 1])[i - 1] == ids@[i - 1]);
            }
        }
    }
    assert(ids@.take(ids@.len() as int) =~= ids@);
    map
}

/// After the first `n` cards were brought up to date they show their current
/// text, and the others what they showed before.
proof fn lemma_shown_after(
    ids: Seq<usize>,
    current: Map<usize, Seq<char>>,
    shown: Map<usize, Seq<char>>,
    n: int,
)
    requires
        0 <= n <= ids.len(),
    ensures
        ({
            let now = shown_after(ids, current, shown, n);
            forall|id: usize|
                {
                    &&& #[trigger] now.dom().contains(id) <==> shown.dom().contains(id) || ids.take(
                        n,
                    ).contains(id)
                    &&& ids.take(n).contains(id) ==> now[id] == current[id]
                    &&& !ids.take(n).contains(id) ==> now[id] == shown[id]
                }
        }),
    decreases n,
{
    if n > 0 {
        lemma_shown_after(ids, current, shown, n - 1);
        let seen = ids.take(n - 1);
        let now = shown_after(ids, current, shown, n);
        let earlier = shown_after(ids, current, shown, n - 1);
        assert(ids.take(n) =~= seen.push(ids[n - 1]));
        assert forall|id: usize|
            {
                &&& #[trigger] now.dom().contains(id) <==> shown.dom().contains(id) || ids.take(
                    n,
                ).contains(id)
                &&& ids.take(n).contains(id) ==> now[id] == current[id]
                &&& !ids.take(n).contains(id) ==> now[id] == shown[id]
            } by {
            assert(earlier.dom().contains(id) <==> shown.dom().contains(id) || seen.contains(id));
            if seen.contains(id) {
                let k = choose|k: int| 0 <= k < seen.len() && seen[k] == id;
                assert(ids.take(n)[k] == id);
            }
            assert(ids.take(n)[n - 1] == ids[n - 1]);
        }
    } else {
        assert(ids.take(0) =~= Seq::<usize>::empty());
    }
}

/// Once all cards of a page were brought up to date it shows the current
/// texts.
proof fn lemma_all_shown(
    ids: Seq<usize>,
    current: Map<usize, Seq<char>>,
    shown: Map<usize, Seq<char>>,
)
    requires
        forall|id: usize| #[trigger] current.dom().contains(id) <==> ids.contains(id),
        forall|id: usize| #[trigger] shown.dom().contains(id) <==> ids.contains(id),
    ensures
        shown_after(ids, current, shown, ids.len() as int) == current,
{
    let now = shown_after(ids, current, shown, ids.len() as int);
    lemma_shown_after(ids, current, shown, ids.len() as int);
    assert(ids.take(ids.len() as int) =~= ids);
    assert forall|id: usize| #[trigger] now.dom().contains(id) <==> current.dom().contains(id) by {
        assert(shown.dom().contains(id) <==> ids.contains(id));
    }
    assert(now =~= current);
}

impl SseClient {
    /// Decide what to push to the page, given the controllers and the readout
    /// of each: all cards when the controllers changed, otherwise the readouts
    /// that changed.
    pub fn step(&mut self, ids: Vec<usize>, readouts: Vec<String>) -> (update: SseUpdate)
        requires
            old(self).wf(),
            ids@.len() == readouts@.len(),
        ensures
            final(self).wf(),
            final(self).shows_cards_of(ids@),
            final(self).shown() == cards(ids@, readouts@, ids@.len() as int),
            match update {
                SseUpdate::Pads => !old(self).shows_cards_of(ids@),
                SseUpdate::Readouts(list) => old(self).shows_cards_of(ids@) && updates_view(list@)
                    == changed_cards(
                    ids@,
                    cards(ids@, readouts@, ids@.len() as int),
                    old(self).shown(),
                    ids@.len() as int,
                ),
            },
    {
        let ghost current = cards(ids@, readouts@, ids@.len() as int);
        let map = readout_map(&ids, readouts);
        let same = match &self.ids {
            Some(sent) => {
                let same = *sent == ids;
                assert(same ==> sent@ =~= ids@);
                same
            },
            None => false,
        };
        if !same {
            self.ids = Some(ids);
            self.readouts = map;
            return SseUpdate::Pads;
        }
        let list = self.push_changes(&ids, &map);
        proof {
            let shown = old(self).shown();
            assert forall|id: usize| #[trigger] current.dom().contains(id) <==> ids@.contains(
                id,
            ) by {
                assert(map@.dom().contains(id) <==> ids@.contains(id));
            }
            assert forall|id: usize| #[trigger] shown.dom().contains(id) <==> ids@.contains(
                id,
            ) by {
                assert(old(self).readouts@.dom().contains(id) <==> ids@.contains(id));
            }
            lemma_all_shown(ids@, current, shown);
            assert forall|id: usize|
                #[trigger] self.readouts@.dom().contains(id) <==> ids@.contains(id) by {
                assert(self.shown().dom().contains(id) <==> current.dom().contains(id));
            }
        }
        SseUpdate::Readouts(list)
    }

    /// Collect the readouts that changed, and note them as shown.
    fn push_changes(&mut self, ids: &Vec<usize>, map: &HashMap<usize, String>) -> (list: Vec<
        (usize, String),
    >)
        requires
            forall|id: usize| #[trigger] map@.dom().contains(id) <==> ids@.contains(id),
        ensures
            final(self).ids == old(self).ids,
            final(self).shown() == shown_after(
                ids@,
                texts(map@),
                old(self).shown(),
                ids@.len() as int,
            ),
            updates_view(list@) == changed_cards(
                ids@,
                texts(map@),
                old(self).shown(),
                ids@.len() as int,
            ),
    {
        broadcast use vstd::std_specs::hash::group_hash_axioms;

        let ghost current = texts(map@);
        let ghost shown = old(self).shown();
        let mut list: Vec<(usize, String)> = Vec::new();
        let mut i: usize = 0;
        assert(updates_view(list@) =~= changed_cards(ids@, current, shown, 0));
        while i < ids.len()
            invariant
                i <= ids@.len(),
                current == texts(map@),
                self.ids == old(self).ids,
                forall|id: usize| #[trigger] map@.dom().contains(id) <==> ids@.contains(id),
                self.shown() == shown_after(ids@, current, shown, i as int),
                updates_view(list@) == changed_cards(ids@, current, shown, i as int),
            decreases ids@.len() - i,
        {
            let id: usize = ids[i];
            let ghost known = self.shown();
            let ghost before = updates_view(list@);
            assert(ids@[i as int] == id);
            assert(map@.dom().contains(id));
            if let Some(readout) = map.get(&id) {
                let up_to_date = match self.readouts.get(&id) {
                    Some(last) => *last == *readout,
                    None => false,
                };
                if !up_to_date {
                    list.push((id, readout.clone()));
                    self.readouts.insert(id, readout.clone());
                    assert(updates_view(list@) =~= before.push((id, current[id])));
                }
            }
            i += 1;
            assert(self.shown() =~= known.insert(id, current[id]));
        }
        list
    }
}

/// What a page shows after some of its cards were replaced.
pub open spec fn replaced(shown: Map<usize, Seq<char>>, updates: Seq<CardUpdate>) -> Map<
    usize,
    Seq<char>,
>
    decreases updates.len(),
{
    if updates.len() == 0 {
        shown
    } else {
        replaced(shown, updates.drop_last()).insert(updates.last().0, updates.last().1)
    }
}

/// Replacing the cards that are pushed brings a page up to date: it then
/// shows the current text of every card.
pub proof fn law_page_in_sync(
    ids: Seq<usize>,
    current: Map<usize, Seq<char>>,
    shown: Map<usize, Seq<char>>,
)
    requires
        forall|id: usize| #[trigger] current.dom().contains(id) <==> ids.contains(id),
        forall|id: usize| #[trigger] shown.dom().contains(id) <==> ids.contains(id),
    ensures
        replaced(shown, changed_cards(ids, current, shown, ids.len() as int)) == current,
{
    lemma_replaced(ids, current, shown, ids.len() as int);
    lemma_all_shown(ids, current, shown);
}

proof fn lemma_replaced(
    ids: Seq<usize>,
    current: Map<usize, Seq<char>>,
    shown: Map<usize, Seq<char>>,
    n: int,
)
    requires
        0 <= n <= ids.len(),
    ensures
        replaced(shown, changed_cards(ids, current, shown, n)) == shown_after(
            ids,
            current,
            shown,
            n,
        ),
    decreases n,
{
    if n > 0 {
        lemma_replaced(ids, current, shown, n - 1);
        let before = changed_cards(ids, current, shown, n - 1);
        let id = ids[n - 1];
        let known = shown_after(ids, current, shown, n - 1);
        if known.dom().contains(id) && known[id] == current[id] {
            assert(known.insert(id, current[id]) =~= known);
        } else {
            assert(before.push((id, current[id])).drop_last() =~= before);
        }
    }
}

/// Whether a number is that of card `id`.
pub open spec fn is_card(id: usize) -> spec_fn(usize) -> bool {
    |x: usize| x == id
}

/// Place of card `id` in the list.
pub open spec fn place(ids: Seq<usize>, id: usize) -> int {
    search::first_index(ids, is_card(id))
}

/// `pushed` holds the cards among the first `n` whose text changed, with their
/// new text, each once and in the order of the list.
pub open spec fn is_pushed(
    ids: Seq<usize>,
    current: Map<usize, Seq<char>>,
    shown: Map<usize, Seq<char>>,
    n: int,
    pushed: Seq<CardUpdate>,
) -> bool {
    &&& forall|k: int|
        0 <= k < pushed.len() ==> {
            let (id, text) = #[trigger] pushed[k];
            &&& place(ids, id) < n
            &&& text == current[id]
            &&& shown[id] != current[id]
        }
    &&& forall|id: usize|
        #[trigger] place(ids, id) < n && shown[id] != current[id] ==> exists|k: int|
            0 <= k < pushed.len() && (#[trigger] pushed[k]).0 == id
    &&& forall|k: int, l: int|
        0 <= k < l < pushed.len() ==> place(ids, (#[trigger] pushed[k]).0) < place(
            ids,
            (#[trigger] pushed[l]).0,
        )
}

/// On a page that shows every card of the list, a card is pushed if and only
/// if its text differs from the one shown; each is pushed once, with its new
/// text, in the order of the list.
pub proof fn law_changed_cards(
    ids: Seq<usize>,
    current: Map<usize, Seq<char>>,
    shown: Map<usize, Seq<char>>,
    id: usize,
)
    requires
        forall|x: usize| #[trigger] shown.dom().contains(x) <==> ids.contains(x),
        ids.contains(id),
    ensures
        ({
            let pushed = changed_cards(ids, current, shown, ids.len() as int);
            &&& is_pushed(ids, current, shown, ids.len() as int, pushed)
            &&& shown[id] != current[id] <==> exists|k: int|
                0 <= k < pushed.len() && (#[trigger] pushed[k]).0 == id
        }),
{
    lemma_pushed(ids, current, shown, ids.len() as int);
    let j = choose|j: int| 0 <= j < ids.len() && ids[j] == id;
    lemma_place(ids, id, j);
}

/// A card stands no later than at any index that holds its number, and at one
/// that does.
proof fn lemma_place(ids: Seq<usize>, id: usize, j: int)
    requires
        0 <= j < ids.len(),
        ids[j] == id,
    ensures
        0 <= place(ids, id) <= j,
        ids[place(ids, id)] == id,
{
    search::lemma_first_from(ids, is_card(id), 0);
    assert(is_card(id)(ids[j]));
}

proof fn lemma_pushed(
    ids: Seq<usize>,
    current: Map<usize, Seq<char>>,
    shown: Map<usize, Seq<char>>,
    n: int,
)
    requires
        0 <= n <= ids.len(),
        forall|x: usize| #[trigger] shown.dom().contains(x) <==> ids.contains(x),
    ensures
        is_pushed(ids, current, shown, n, changed_cards(ids, current, shown, n)),
    decreases n,
{
    if n == 0 {
        assert forall|id: usize| #[trigger] place(ids, id) >= 0 by {
            search::lemma_first_from(ids, is_card(id), 0);
        }
    } else {
        lemma_pushed(ids, current, shown, n - 1);
        lemma_shown_after(ids, current, shown, n - 1);
        let before = changed_cards(ids, current, shown, n - 1);
        let pushed = changed_cards(ids, current, shown, n);
        let last = ids[n - 1];
        let known = shown_after(ids, current, shown, n - 1);
        lemma_place(ids, last, n - 1);
        assert(ids.contains(last));
        assert(shown.dom().contains(last) && known.dom().contains(last));
        let p = place(ids, last);
        assert(ids.take(n - 1).contains(last) <==> p < n - 1) by {
            if p < n - 1 {
                assert(ids.take(n - 1)[p] == last);
            }
            if ids.take(n - 1).contains(last) {
                let seen = ids.take(n - 1);
                let q = choose|q: int| 0 <= q < seen.len() && seen[q] == last;
                lemma_place(ids, last, q);
            }
        }
        assert forall|id: usize| #[trigger] place(ids, id) < n && shown[id]
            != current[id] implies exists|k: int|
            0 <= k < pushed.len() && (#[trigger] pushed[k]).0 == id by {
            search::lemma_first_from(ids, is_card(id), 0);
            if place(ids, id) < n - 1 {
                let k = choose|k: int| 0 <= k < before.len() && (#[trigger] before[k]).0 == id;
                assert(pushed[k].0 == id);
            } else {
                assert(id == last);
                assert(pushed[before.len() as int].0 == id);
            }
        }
        assert forall|k: int| 0 <= k < pushed.len() implies {
            let (id, text) = #[trigger] pushed[k];
            &&& place(ids, id) < n
            &&& text == current[id]
            &&& shown[id] != current[id]
        } by {
            if k < before.len() {
                assert(pushed[k] == before[k]);
            }
        }
        assert forall|k: int, l: int| 0 <= k < l < pushed.len() implies place(
            ids,
            (#[trigger] pushed[k]).0,
        ) < place(ids, (#[trigger] pushed[l]).0) by {
            assert(pushed[k] == before[k]);
            if l < before.len() {
                assert(pushed[l] == before[l]);
            }
        }
    }
}

/// A page that is up to date is sent nothing.
pub proof fn law_no_needless_push(
    ids: Seq<usize>,
    current: Map<usize, Seq<char>>,
    n: int,
)
    requires
        0 <= n <= ids.len(),
        forall|id: usize| #[trigger] current.dom().contains(id) <==> ids.contains(id),
    ensures
        changed_cards(ids, current, current, n).len() == 0,
    decreases n,
{
    if n > 0 {
        law_no_needless_push(ids, current, n - 1);
        lemma_shown_after(ids, current, current, n - 1);
        let known = shown_after(ids, current, current, n - 1);
        assert(ids.contains(ids[n - 1]));
        assert(current.dom().contains(ids[n - 1]));
        assert(known.dom().contains(ids[n - 1]));
    }
}

/// The page's vibrations last from a thousandth of a second to five seconds:
/// what is asked for in between stays, what is outside gives the nearer end.
pub proof fn law_page_duration(ms: nat, more: nat)
    requires
        ms <= more,
    ensures
        1 <= ms <= 5000 ==> page_duration(ms) == ms,
        ms == 0 ==> page_duration(ms) == 1,
        ms > 5000 ==> page_duration(ms) == 5000,
        page_duration(ms) <= page_duration(more),
{
}

/// A form field holds a number exactly when it is there and can be read as one.
pub proof fn law_field(field: &str, max: nat)
    ensures
        field_number(None, max) is None,
        field_number(Some(field), max) == text::parsed(field@, max),
{
}

/// A form gives a command exactly when all of its fields hold numbers that fit,
/// and the command carries those numbers: the controller first, then the slot,
/// or the duration brought into the page's range.
pub proof fn law_form_commands(first: &str, second: &str)
    ensures
        ({
            let id = text::parsed(first@, usize::MAX as nat);
            let slot = text::parsed(second@, usize::MAX as nat);
            let ms = text::parsed(second@, u64::MAX as nat);
            &&& identify_request(Some(first)) is Some <==> id is Some
            &&& identify_request(Some(first)) matches Some(command) ==> command
                == (Command::Identify { controller_id: id->0 as usize })
            &&& remap_request(Some(first), Some(second)) is Some <==> id is Some && slot is Some
            &&& remap_request(Some(first), Some(second)) matches Some(command) ==> command
                == (Command::Remap {
                controller_id: id->0 as usize,
                new_slot: slot->0 as usize,
            })
            &&& vibrate_request(Some(first), Some(second)) is Some <==> id is Some && ms is Some
            &&& vibrate_request(Some(first), Some(second)) matches Some(command) ==> command
                == (Command::Vibrate {
                controller_id: id->0 as usize,
                duration_ms: if ms->0 == 0 {
                    1
                } else if ms->0 > 5000 {
                    5000
                } else {
                    ms->0 as u64
                },
            })
        }),
        identify_request(None) is None,
        remap_request(None, Some(second)) is None,
        remap_request(Some(first), None) is None,
        remap_request(None, None) is None,
        vibrate_request(None, Some(second)) is None,
        vibrate_request(Some(first), None) is None,
        vibrate_request(None, None) is None,
{
}

/// What the page says of a battery: a byte with the lowest bit set is wired
/// power; otherwise the three top bits are a number out of four, and bit 4 says
/// that it is charging.
pub proof fn law_battery_text(level: u8, charging: bool, rest: u8)
    requires
        level < 8,
        rest < 8,
    ensures
        ({
            let byte = 32 * level + (if charging { 16int } else { 0 }) + 2 * rest;
            let label = battery_text(byte as u8);
            &&& battery_text((byte + 1) as u8) == "wired"@
            &&& label[0] as int == 48 + level
            &&& label[1] == '/' && label[2] == '4'
            &&& charging ==> label.skip(3) == " charging"@
            &&& !charging ==> label.len() == 3
        }),
{
    let byte = 32 * level + (if charging { 16int } else { 0 }) + 2 * rest;
    let b = byte as u8;
    let label = battery_text(b);
    text::law_decimal_digits(level as nat);
    reveal_strlit("/4");
    reveal_strlit("");
    assert(b / 0x20 == level && b % 2 == 0 && (b / 0x10) % 2 == if charging { 1int } else { 0 });
    assert(((byte + 1) as u8) % 2 == 1);
    if charging {
        assert(label.skip(3) =~= " charging"@);
    }
}

/// The names of the files of the page.
pub proof fn law_asset_names(asset: Asset)
    ensures
        asset == Asset::Htmx <==> asset_name(asset) == "htmx.min.js"@,
        asset == Asset::HtmxSse <==> asset_name(asset) == "htmx-ext-sse.min.js"@,
        asset == Asset::Alpine <==> asset_name(asset) == "alpine.min.js"@,
        asset == Asset::Style <==> asset_name(asset) == "style.css"@,
{
    reveal_strlit("htmx.min.js");
    reveal_strlit("htmx-ext-sse.min.js");
    reveal_strlit("alpine.min.js");
    reveal_strlit("style.css");
    assert("htmx.min.js"@.len() == 11);
    assert("htmx-ext-sse.min.js"@.len() == 19);
    assert("alpine.min.js"@.len() == 13);
    assert("style.css"@.len() == 9);
}

/// A file whose name ends in `.css` is served as a style sheet, one whose name
/// ends in `.js` as a script.
pub proof fn law_mime_follows_name(asset: Asset)
    ensures
        ({
            let name = asset_name(asset);
            &&& asset_mime(asset) == "text/css"@ <==> name.skip(name.len() - 4) == ".css"@
            &&& asset_mime(asset) == "text/javascript"@ <==> name.skip(name.len() - 3) == ".js"@
        }),
{
    reveal_strlit("htmx.min.js");
    reveal_strlit("htmx-ext-sse.min.js");
    reveal_strlit("alpine.min.js");
    reveal_strlit("style.css");
    reveal_strlit(".css");
    reveal_strlit(".js");
    reveal_strlit("text/css");
    reveal_strlit("text/javascript");
    assert("text/css"@.len() == 8 && "text/javascript"@.len() == 15);
    let name = asset_name(asset);
    if asset == Asset::Style {
        assert(name.skip(name.len() - 4) =~= ".css"@);
        assert(name.skip(name.len() - 3)[0] != ".js"@[0]);
    } else {
        assert(name.skip(name.len() - 3) =~= ".js"@);
        assert(name.skip(name.len() - 4)[1] != ".css"@[1]);
    }
}

/// A page has a card for exactly the numbers on the list, and each shows the
/// last readout of its number.
pub proof fn law_cards(ids: Seq<usize>, readouts: Seq<String>, n: int, i: int, id: usize)
    requires
        0 <= i < n <= ids.len(),
        ids[i] == id,
        forall|j: int| i < j < n ==> #[trigger] ids[j] != id,
    ensures
        cards(ids, readouts, n).dom().contains(id),
        cards(ids, readouts, n)[id] == readouts[i]@,
    decreases n,
{
    if i < n - 1 {
        assert(ids[n - 1] != id);
        law_cards(ids, readouts, n - 1, i, id);
    }
}

/// A number that is not on the list has no card.
pub proof fn law_no_other_cards(ids: Seq<usize>, readouts: Seq<String>, n: int, id: usize)
    requires
        n <= ids.len(),
        forall|j: int| 0 <= j < n ==> #[trigger] ids[j] != id,
    ensures
        !cards(ids, readouts, n).dom().contains(id),
    decreases n,
{
    if n > 0 {
        assert(ids[n - 1] != id);
        law_no_other_cards(ids, readouts, n - 1, id);
    }
}

/// What a page shows is the text of each readout that it keeps, and what is
/// pushed is each readout of the list with its number, in order.
pub proof fn law_shown_texts(
    client: SseClient,
    id: usize,
    updates: Seq<(usize, String)>,
    i: int,
)
    requires
        0 <= i < updates.len(),
    ensures
        client.shown().dom().contains(id) <==> client.readouts@.dom().contains(id),
        client.readouts@.dom().contains(id) ==> client.shown()[id] == client.readouts@[id]@,
        updates_view(updates).len() == updates.len(),
        updates_view(updates)[i].0 == updates[i].0,
        updates_view(updates)[i].1 == updates[i].1@,
{
}

/// A page shows the cards of a list exactly when that list was sent to it, in
/// the same order.
pub proof fn law_cards_sent(client: SseClient, ids: Seq<usize>)
    ensures
        client.ids is None ==> !client.shows_cards_of(ids),
        client.ids matches Some(sent) ==> (client.shows_cards_of(ids) <==> sent@ == ids),
{
}

} // verus!
