//! The presence data a session publishes: an activity with its optional
//! assets, timestamps, party, secrets and buttons.
//!
//! Each type is built fluently, one field at a time, and renders itself to
//! JSON text with a fixed member order: the members appear in declaration
//! order, absent fields are left out entirely, except on a button, whose two
//! members are always written, `null` standing for an absent one.

use vstd::prelude::*;
use crate::json::{
    array_from_values, bool_member, bool_text, dec_digits, dec_string, json_array, json_object,
    json_string, member, object_from_members, opt_str_members, opt_string_json,
    opt_string_member, opt_u64_members, push_opt_str_member, push_opt_u64_member, raw_member,
    string_member, u64_member, views_of,
};

verus! {

/// A user's activity: what is shown as their rich presence.
#[derive(Clone, Debug)]
pub struct Activity {
    /// A first descriptive line.
    pub details: Option<String>,
    /// The current party status line.
    pub state: Option<String>,
    /// The images and hover texts.
    pub assets: Option<Assets>,
    /// When the activity started or will end.
    pub timestamps: Option<Timestamps>,
    /// The party the user is in.
    pub party: Option<Party>,
    /// The secrets for joining or spectating.
    pub secrets: Option<Secrets>,
    /// The buttons shown under the presence.
    pub buttons: Option<Vec<Button>>,
    /// What kind of activity it is.
    pub activity_type: Option<ActivityType>,
    /// Which line the status display shows.
    pub status_display_type: Option<StatusDisplayType>,
}

/// The image assets of an activity.
#[derive(Clone, Debug)]
pub struct Assets {
    /// The identifier of the large image.
    pub large_image: Option<String>,
    /// The hover text of the large image.
    pub large_text: Option<String>,
    /// The link the large image opens.
    pub large_url: Option<String>,
    /// The identifier of the small image.
    pub small_image: Option<String>,
    /// The hover text of the small image.
    pub small_text: Option<String>,
    /// The link the small image opens.
    pub small_url: Option<String>,
}

/// The start and end times of an activity, as seconds.
#[derive(Clone, Debug)]
pub struct Timestamps {
    /// When the activity started.
    pub start: Option<u64>,
    /// When the activity ends.
    pub end: Option<u64>,
}

/// The party an activity belongs to.
#[derive(Clone, Debug)]
pub struct Party {
    /// The identifier of the party.
    pub id: Option<String>,
    /// How many are present, and how many fit.
    pub size: Option<(u32, u32)>,
}

/// The secrets that let others join or watch.
#[derive(Clone, Debug)]
pub struct Secrets {
    /// The secret for joining the party.
    pub join: Option<String>,
    /// The secret for spectating the game.
    pub spectate: Option<String>,
    /// Whether this is an instance of a game session.
    pub instance: Option<bool>,
    /// The secret for the match.
    pub match_secret: Option<String>,
}

/// A button shown under the presence.
#[derive(Clone, Debug)]
pub struct Button {
    /// The text on the button.
    pub label: Option<String>,
    /// The link the button opens.
    pub url: Option<String>,
}

/// The kind of an activity.
#[derive(Clone, Copy, Debug, PartialEq, Eq, Structural)]
pub enum ActivityType {
    /// The user is playing a game.
    Playing,
    /// The user is streaming.
    Streaming,
    /// The user is listening to something.
    Listening,
    /// The user is watching something.
    Watching,
    /// A custom status.
    Custom,
    /// The user is competing in something.
    Competing,
}

/// Which line the status display shows.
#[derive(Clone, Copy, Debug, PartialEq, Eq, Structural)]
pub enum StatusDisplayType {
    /// Show the name of the activity.
    Name,
    /// Show the state of the activity.
    State,
    /// Show the details of the activity.
    Details,
}

/// The small integer that stands for an activity kind on the wire.
pub open spec fn activity_type_code(t: ActivityType) -> u64 {
    match t {
        ActivityType::Playing => 0,
        ActivityType::Streaming => 1,
        ActivityType::Listening => 2,
        ActivityType::Watching => 3,
        ActivityType::Custom => 4,
        ActivityType::Competing => 5,
    }
}

/// The small integer that stands for a status display choice on the wire.
pub open spec fn status_display_type_code(t: StatusDisplayType) -> u64 {
    match t {
        StatusDisplayType::Name => 0,
        StatusDisplayType::State => 1,
        StatusDisplayType::Details => 2,
    }
}

impl ActivityType {
    /// The wire code of this activity kind.
    pub fn code(&self) -> (c: u64)
        ensures
            c == activity_type_code(*self),
    {
        match self {
            ActivityType::Playing => 0,
            ActivityType::Streaming => 1,
            ActivityType::Listening => 2,
            ActivityType::Watching => 3,
            ActivityType::Custom => 4,
            ActivityType::Competing => 5,
        }
    }
}

impl StatusDisplayType {
    /// The wire code of this status display choice.
    pub fn code(&self) -> (c: u64)
        ensures
            c == status_display_type_code(*self),
    {
        match self {
            StatusDisplayType::Name => 0,
            StatusDisplayType::State => 1,
            StatusDisplayType::Details => 2,
        }
    }
}

/// The members of the assets object, in declaration order.
pub open spec fn assets_members(a: Assets) -> Seq<Seq<char>> {
    opt_str_members("large_image"@, a.large_image) + opt_str_members("large_text"@, a.large_text)
        + opt_str_members("large_url"@, a.large_url) + opt_str_members(
        "small_image"@,
        a.small_image,
    ) + opt_str_members("small_text"@, a.small_text) + opt_str_members(
        "small_url"@,
        a.small_url,
    )
}

/// The JSON text of the assets.
pub open spec fn assets_json(a: Assets) -> Seq<char> {
    json_object(assets_members(a))
}

/// The members of the timestamps object, in declaration order.
pub open spec fn timestamps_members(t: Timestamps) -> Seq<Seq<char>> {
    opt_u64_members("start"@, t.start) + opt_u64_members("end"@, t.end)
}

/// The JSON text of the timestamps.
pub open spec fn timestamps_json(t: Timestamps) -> Seq<char> {
    json_object(timestamps_members(t))
}

/// The members of the party object: the identifier, then the size as a
/// two-element array of present count and capacity.
pub open spec fn party_members(p: Party) -> Seq<Seq<char>> {
    opt_str_members("id"@, p.id) + (match p.size {
        Some(sz) => seq![
            member(
                "size"@,
                json_array(seq![dec_digits(sz.0 as int), dec_digits(sz.1 as int)]),
            ),
        ],
        None => Seq::empty(),
    })
}

/// The JSON text of the party.
pub open spec fn party_json(p: Party) -> Seq<char> {
    json_object(party_members(p))
}

/// The members of the secrets object, in declaration order.
pub open spec fn secrets_members(s: Secrets) -> Seq<Seq<char>> {
    opt_str_members("join"@, s.join) + opt_str_members("spectate"@, s.spectate) + (match s
        .instance {
        Some(b) => seq![member("instance"@, bool_text(b))],
        None => Seq::empty(),
    }) + opt_str_members("match"@, s.match_secret)
}

/// The JSON text of the secrets.
pub open spec fn secrets_json(s: Secrets) -> Seq<char> {
    json_object(secrets_members(s))
}

/// The JSON text of one button: label and url are always written, `null`
/// standing for an absent one.
pub open spec fn button_json(b: Button) -> Seq<char> {
    json_object(
        seq![
            member("label"@, opt_string_json(b.label)),
            member("url"@, opt_string_json(b.url)),
        ],
    )
}

/// The JSON text of the button list.
pub open spec fn buttons_json(bs: Seq<Button>) -> Seq<char> {
    json_array(Seq::new(bs.len(), |i: int| button_json(bs[i])))
}

/// The member an optional assets field contributes.
pub open spec fn opt_assets_members(v: Option<Assets>) -> Seq<Seq<char>> {
    match v {
        Some(x) => seq![member("assets"@, assets_json(x))],
        None => Seq::empty(),
    }
}

/// The member an optional timestamps field contributes.
pub open spec fn opt_timestamps_members(v: Option<Timestamps>) -> Seq<Seq<char>> {
    match v {
        Some(x) => seq![member("timestamps"@, timestamps_json(x))],
        None => Seq::empty(),
    }
}

/// The member an optional party field contributes.
pub open spec fn opt_party_members(v: Option<Party>) -> Seq<Seq<char>> {
    match v {
        Some(x) => seq![member("party"@, party_json(x))],
        None => Seq::empty(),
    }
}

/// The member an optional secrets field contributes.
pub open spec fn opt_secrets_members(v: Option<Secrets>) -> Seq<Seq<char>> {
    match v {
        Some(x) => seq![member("secrets"@, secrets_json(x))],
        None => Seq::empty(),
    }
}

/// The member an optional button list contributes.
pub open spec fn opt_buttons_members(v: Option<Vec<Button>>) -> Seq<Seq<char>> {
    match v {
        Some(bs) => seq![member("buttons"@, buttons_json(bs@))],
        None => Seq::empty(),
    }
}

/// The member an optional activity kind contributes, under the name `type`.
pub open spec fn opt_type_members(v: Option<ActivityType>) -> Seq<Seq<char>> {
    match v {
        Some(t) => seq![member("type"@, dec_digits(activity_type_code(t) as int))],
        None => Seq::empty(),
    }
}

/// The member an optional status display choice contributes.
pub open spec fn opt_status_members(v: Option<StatusDisplayType>) -> Seq<Seq<char>> {
    match v {
        Some(t) => seq![
            member("status_display_type"@, dec_digits(status_display_type_code(t) as int)),
        ],
        None => Seq::empty(),
    }
}

/// The members of the activity object, in declaration order; the kind is
/// written under the name `type`.
pub open spec fn activity_members(a: Activity) -> Seq<Seq<char>> {
    opt_str_members("details"@, a.details) + opt_str_members("state"@, a.state)
        + opt_assets_members(a.assets) + opt_timestamps_members(a.timestamps)
        + opt_party_members(a.party) + opt_secrets_members(a.secrets)
        + opt_buttons_members(a.buttons) + opt_type_members(a.activity_type)
        + opt_status_members(a.status_display_type)
}

/// The JSON text of the activity.
pub open spec fn activity_json(a: Activity) -> Seq<char> {
    json_object(activity_members(a))
}

impl Activity {
    /// Creates an activity with every field absent.
    pub fn new() -> (r: Self)
        ensures
            r == (Activity {
                details: None,
                state: None,
                assets: None,
                timestamps: None,
                party: None,
                secrets: None,
                buttons: None,
                activity_type: None,
                status_display_type: None,
            }),
    {
        Activity {
            details: None,
            state: None,
            assets: None,
            timestamps: None,
            party: None,
            secrets: None,
            buttons: None,
            activity_type: None,
            status_display_type: None,
        }
    }

    /// Sets the details line.
    pub fn set_details(self, details: String) -> (r: Self)
        ensures
            r == (Activity { details: Some(details), ..self }),
    {
        Activity { details: Some(details), ..self }
    }

    /// Sets the state line.
    pub fn set_state(self, state: String) -> (r: Self)
        ensures
            r == (Activity { state: Some(state), ..self }),
    {
        Activity { state: Some(state), ..self }
    }

    /// Sets the assets.
    pub fn set_assets(self, assets: Assets) -> (r: Self)
        ensures
            r == (Activity { assets: Some(assets), ..self }),
    {
        Activity { assets: Some(assets), ..self }
    }

    /// Sets the timestamps.
    pub fn set_timestamps(self, timestamps: Timestamps) -> (r: Self)
        ensures
            r == (Activity { timestamps: Some(timestamps), ..self }),
    {
        Activity { timestamps: Some(timestamps), ..self }
    }

    /// Sets the party.
    pub fn set_party(self, party: Party) -> (r: Self)
        ensures
            r == (Activity { party: Some(party), ..self }),
    {
        Activity { party: Some(party), ..self }
    }

    /// Sets the secrets.
    pub fn set_secrets(self, secrets: Secrets) -> (r: Self)
        ensures
            r == (Activity { secrets: Some(secrets), ..self }),
    {
        Activity { secrets: Some(secrets), ..self }
    }

    /// Sets the buttons.
    pub fn set_buttons(self, buttons: Vec<Button>) -> (r: Self)
        ensures
            r == (Activity { buttons: Some(buttons), ..self }),
    {
        Activity { buttons: Some(buttons), ..self }
    }

    /// Sets the kind of activity.
    pub fn set_activity_type(self, activity_type: ActivityType) -> (r: Self)
        ensures
            r == (Activity { activity_type: Some(activity_type), ..self }),
    {
        Activity { activity_type: Some(activity_type), ..self }
    }

    /// Sets which line the status display shows.
    pub fn set_status_display_type(self, status_display_type: StatusDisplayType) -> (r: Self)
        ensures
            r == (Activity { status_display_type: Some(status_display_type), ..self }),
    {
        Activity { status_display_type: Some(status_display_type), ..self }
    }

    /// Renders the activity to its JSON text.
    #[verifier::rlimit(60)]
    pub fn to_json(&self) -> (r: String)
        ensures
            r@ == activity_json(*self),
    {
        let mut ms: Vec<String> = Vec::new();
        push_opt_str_member(&mut ms, "details", &self.details);
        push_opt_str_member(&mut ms, "state", &self.state);
        push_assets_member(&mut ms, &self.assets);
        push_timestamps_member(&mut ms, &self.timestamps);
        push_party_member(&mut ms, &self.party);
        push_secrets_member(&mut ms, &self.secrets);
        push_buttons_member(&mut ms, &self.buttons);
        push_type_member(&mut ms, &self.activity_type);
        push_status_member(&mut ms, &self.status_display_type);
        proof {
            assert(views_of(ms@) =~= activity_members(*self));
        }
        object_from_members(&ms)
    }
}

/// Appends the member of an optional assets field to a member list.
fn push_assets_member(ms: &mut Vec<String>, v: &Option<Assets>)
    ensures
        views_of(final(ms)@) == views_of(old(ms)@) + opt_assets_members(*v),
{
    if let Some(x) = v {
        ms.push(raw_member("assets", x.to_json()));
    }
    proof {
        assert(views_of(ms@) =~= views_of(old(ms)@) + opt_assets_members(*v));
    }
}

/// Appends the member of an optional timestamps field to a member list.
fn push_timestamps_member(ms: &mut Vec<String>, v: &Option<Timestamps>)
    ensures
        views_of(final(ms)@) == views_of(old(ms)@) + opt_timestamps_members(*v),
{
    if let Some(x) = v {
        ms.push(raw_member("timestamps", x.to_json()));
    }
    proof {
        assert(views_of(ms@) =~= views_of(old(ms)@) + opt_timestamps_members(*v));
    }
}

/// Appends the member of an optional party field to a member list.
fn push_party_member(ms: &mut Vec<String>, v: &Option<Party>)
    ensures
        views_of(final(ms)@) == views_of(old(ms)@) + opt_party_members(*v),
{
    if let Some(x) = v {
        ms.push(raw_member("party", x.to_json()));
    }
    proof {
        assert(views_of(ms@) =~= views_of(old(ms)@) + opt_party_members(*v));
    }
}

/// Appends the member of an optional secrets field to a member list.
fn push_secrets_member(ms: &mut Vec<String>, v: &Option<Secrets>)
    ensures
        views_of(final(ms)@) == views_of(old(ms)@) + opt_secrets_members(*v),
{
    if let Some(x) = v {
        ms.push(raw_member("secrets", x.to_json()));
    }
    proof {
        assert(views_of(ms@) =~= views_of(old(ms)@) + opt_secrets_members(*v));
    }
}

/// Appends the member of an optional button list to a member list.
fn push_buttons_member(ms: &mut Vec<String>, v: &Option<Vec<Button>>)
    ensures
        views_of(final(ms)@) == views_of(old(ms)@) + opt_buttons_members(*v),
{
    if let Some(bs) = v {
        ms.push(raw_member("buttons", buttons_to_json(bs)));
    }
    proof {
        assert(views_of(ms@) =~= views_of(old(ms)@) + opt_buttons_members(*v));
    }
}

/// Appends the member of an optional activity kind to a member list.
fn push_type_member(ms: &mut Vec<String>, v: &Option<ActivityType>)
    ensures
        views_of(final(ms)@) == views_of(old(ms)@) + opt_type_members(*v),
{
    if let Some(t) = v {
        ms.push(u64_member("type", t.code()));
    }
    proof {
        assert(views_of(ms@) =~= views_of(old(ms)@) + opt_type_members(*v));
    }
}

/// Appends the member of an optional status display choice to a member list.
fn push_status_member(ms: &mut Vec<String>, v: &Option<StatusDisplayType>)
    ensures
        views_of(final(ms)@) == views_of(old(ms)@) + opt_status_members(*v),
{
    if let Some(t) = v {
        ms.push(u64_member("status_display_type", t.code()));
    }
    proof {
        assert(views_of(ms@) =~= views_of(old(ms)@) + opt_status_members(*v));
    }
}

/// Renders a button list to its JSON text.
pub fn buttons_to_json(bs: &Vec<Button>) -> (r: String)
    ensures
        r@ == buttons_json(bs@),
{
    let mut vs: Vec<String> = Vec::new();
    let mut i: usize = 0;
    while i < bs.len()
        invariant
            i <= bs@.len(),
            vs@.len() == i,
            forall|k: int| 0 <= k < i ==> #[trigger] vs@[k]@ == button_json(bs@[k]),
        decreases bs@.len() - i,
    {
        vs.push(bs[i].to_json());
        i = i + 1;
    }
    proof {
        assert(Seq::new(bs@.len(), |k: int| button_json(bs@[k])) =~= views_of(vs@));
    }
    array_from_values(&vs)
}

impl Assets {
    /// Creates assets with every field absent.
    pub fn new() -> (r: Self)
        ensures
            r == (Assets {
                large_image: None,
                large_text: None,
                large_url: None,
                small_image: None,
                small_text: None,
                small_url: None,
            }),
    {
        Assets {
            large_image: None,
            large_text: None,
            large_url: None,
            small_image: None,
            small_text: None,
            small_url: None,
        }
    }

    /// Sets the large image.
    pub fn set_large_image(self, large_image: String) -> (r: Self)
        ensures
            r == (Assets { large_image: Some(large_image), ..self }),
    {
        Assets { large_image: Some(large_image), ..self }
    }

    /// Sets the hover text of the large image.
    pub fn set_large_text(self, large_text: String) -> (r: Self)
        ensures
            r == (Assets { large_text: Some(large_text), ..self }),
    {
        Assets { large_text: Some(large_text), ..self }
    }

    /// Sets the link of the large image.
    pub fn set_large_url(self, large_url: String) -> (r: Self)
        ensures
            r == (Assets { large_url: Some(large_url), ..self }),
    {
        Assets { large_url: Some(large_url), ..self }
    }

    /// Sets the small image.
    pub fn set_small_image(self, small_image: String) -> (r: Self)
        ensures
            r == (Assets { small_image: Some(small_image), ..self }),
    {
        Assets { small_image: Some(small_image), ..self }
    }

    /// Sets the hover text of the small image.
    pub fn set_small_text(self, small_text: String) -> (r: Self)
        ensures
            r == (Assets { small_text: Some(small_text), ..self }),
    {
        Assets { small_text: Some(small_text), ..self }
    }

    /// Sets the link of the small image.
    pub fn set_small_url(self, small_url: String) -> (r: Self)
        ensures
            r == (Assets { small_url: Some(small_url), ..self }),
    {
        Assets { small_url: Some(small_url), ..self }
    }

    /// Renders the assets to their JSON text.
    pub fn to_json(&self) -> (r: String)
        ensures
            r@ == assets_json(*self),
    {
        let mut ms: Vec<String> = Vec::new();
        push_opt_str_member(&mut ms, "large_image", &self.large_image);
        push_opt_str_member(&mut ms, "large_text", &self.large_text);
        push_opt_str_member(&mut ms, "large_url", &self.large_url);
        push_opt_str_member(&mut ms, "small_image", &self.small_image);
        push_opt_str_member(&mut ms, "small_text", &self.small_text);
        push_opt_str_member(&mut ms, "small_url", &self.small_url);
        proof {
            assert(views_of(ms@) =~= assets_members(*self));
        }
        object_from_members(&ms)
    }
}

impl Timestamps {
    /// Creates timestamps with both ends absent.
    pub fn new() -> (r: Self)
        ensures
            r == (Timestamps { start: None, end: None }),
    {
        Timestamps { start: None, end: None }
    }

    /// Sets the start time.
    pub fn set_start(self, start: u64) -> (r: Self)
        ensures
            r == (Timestamps { start: Some(start), ..self }),
    {
        Timestamps { start: Some(start), ..self }
    }

    /// Sets the end time.
    pub fn set_end(self, end: u64) -> (r: Self)
        ensures
            r == (Timestamps { end: Some(end), ..self }),
    {
        Timestamps { end: Some(end), ..self }
    }

    /// Renders the timestamps to their JSON text.
    pub fn to_json(&self) -> (r: String)
        ensures
            r@ == timestamps_json(*self),
    {
        let mut ms: Vec<String> = Vec::new();
        push_opt_u64_member(&mut ms, "start", &self.start);
        push_opt_u64_member(&mut ms, "end", &self.end);
        proof {
            assert(views_of(ms@) =~= timestamps_members(*self));
        }
        object_from_members(&ms)
    }
}

impl Party {
    /// Creates a party with every field absent.
    pub fn new() -> (r: Self)
        ensures
            r == (Party { id: None, size: None }),
    {
        Party { id: None, size: None }
    }

    /// Sets the identifier of the party.
    pub fn set_id(self, id: String) -> (r: Self)
        ensures
            r == (Party { id: Some(id), ..self }),
    {
        Party { id: Some(id), ..self }
    }

    /// Sets the size of the party: how many are present, and how many fit.
    pub fn set_size(self, present: u32, size: u32) -> (r: Self)
        ensures
            r == (Party { size: Some((present, size)), ..self }),
    {
        Party { size: Some((present, size)), ..self }
    }

    /// Renders the party to its JSON text.
    pub fn to_json(&self) -> (r: String)
        ensures
            r@ == party_json(*self),
    {
        let mut ms: Vec<String> = Vec::new();
        if let Some(s) = &self.id {
            ms.push(string_member("id", s.as_str()));
        }
        if let Some(sz) = &self.size {
            let mut pair: Vec<String> = Vec::new();
            pair.push(dec_string(sz.0 as u64));
            pair.push(dec_string(sz.1 as u64));
            proof {
                assert(views_of(pair@) =~= seq![
                    dec_digits(sz.0 as int),
                    dec_digits(sz.1 as int),
                ]);
            }
            ms.push(raw_member("size", array_from_values(&pair)));
        }
        proof {
            assert(views_of(ms@) =~= party_members(*self));
        }
        object_from_members(&ms)
    }
}

impl Secrets {
    /// Creates secrets with every field absent.
    pub fn new() -> (r: Self)
        ensures
            r == (Secrets { join: None, spectate: None, instance: None, match_secret: None }),
    {
        Secrets { join: None, spectate: None, instance: None, match_secret: None }
    }

    /// Sets the join secret.
    pub fn set_join(self, join: String) -> (r: Self)
        ensures
            r == (Secrets { join: Some(join), ..self }),
    {
        Secrets { join: Some(join), ..self }
    }

    /// Sets the spectate secret.
    pub fn set_spectate(self, spectate: String) -> (r: Self)
        ensures
            r == (Secrets { spectate: Some(spectate), ..self }),
    {
        Secrets { spectate: Some(spectate), ..self }
    }

    /// Sets whether this is an instance of a game session.
    pub fn set_instance(self, instance: bool) -> (r: Self)
        ensures
            r == (Secrets { instance: Some(instance), ..self }),
    {
        Secrets { instance: Some(instance), ..self }
    }

    /// Sets the match secret, written under the name `match`.
    pub fn set_match(self, match_secret: String) -> (r: Self)
        ensures
            r == (Secrets { match_secret: Some(match_secret), ..self }),
    {
        Secrets { match_secret: Some(match_secret), ..self }
    }

    /// Renders the secrets to their JSON text.
    pub fn to_json(&self) -> (r: String)
        ensures
            r@ == secrets_json(*self),
    {
        let mut ms: Vec<String> = Vec::new();
        if let Some(s) = &self.join {
            ms.push(string_member("join", s.as_str()));
        }
        if let Some(s) = &self.spectate {
            ms.push(string_member("spectate", s.as_str()));
        }
        if let Some(b) = &self.instance {
            ms.push(bool_member("instance", *b));
        }
        if let Some(s) = &self.match_secret {
            ms.push(string_member("match", s.as_str()));
        }
        proof {
            assert(views_of(ms@) =~= secrets_members(*self));
        }
        object_from_members(&ms)
    }
}

impl Button {
    /// Creates a button with label and link absent.
    pub fn new() -> (r: Self)
        ensures
            r == (Button { label: None, url: None }),
    {
        Button { label: None, url: None }
    }

    /// Sets the text on the button.
    pub fn set_label(self, label: String) -> (r: Self)
        ensures
            r == (Button { label: Some(label), ..self }),
    {
        Button { label: Some(label), ..self }
    }

    /// Sets the link the button opens.
    pub fn set_url(self, url: String) -> (r: Self)
        ensures
            r == (Button { url: Some(url), ..self }),
    {
        Button { url: Some(url), ..self }
    }

    /// Renders the button to its JSON text; both members are always
    /// written, `null` standing for an absent one.
    pub fn to_json(&self) -> (r: String)
        ensures
            r@ == button_json(*self),
    {
        let mut ms: Vec<String> = Vec::new();
        ms.push(opt_string_member("label", &self.label));
        ms.push(opt_string_member("url", &self.url));
        proof {
            assert(views_of(ms@) =~= seq![
                member("label"@, opt_string_json(self.label)),
                member("url"@, opt_string_json(self.url)),
            ]);
        }
        object_from_members(&ms)
    }
}

} // verus!
