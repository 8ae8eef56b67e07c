//! Profiles: named personas whose activation pattern turns a member's
//! message into a message posted under the profile's name and avatar.
use vstd::prelude::*;
use crate::text::{contains, contains_text, decimal, push_decimal, same_text, starts_with};

verus! {

/// The two things the profile command offers.
#[derive(Clone, Copy, Debug, PartialEq, Eq, Structural)]
pub enum ProfilePrimaryOption {
    Create,
    Edit,
}

/// A stored profile.
#[derive(Debug)]
pub struct ProfileInfo {
    pub name: String,
    pub activation: String,
    pub image_url: String,
    pub owner: u64,
    pub crated_timestamp: u64,
    pub last_used_timestamp: u64,
    pub uses: u64,
}

impl Clone for ProfileInfo {
    fn clone(&self) -> (r: Self)
        ensures
            r == *self,
    {
        ProfileInfo {
            name: self.name.clone(),
            activation: self.activation.clone(),
            image_url: self.image_url.clone(),
            owner: self.owner,
            crated_timestamp: self.crated_timestamp,
            last_used_timestamp: self.last_used_timestamp,
            uses: self.uses,
        }
    }
}

/// The word that marks, in an activation, where the message text goes.
pub const TEXT_MARKER: &'static str = "text";

/// Why a profile could not be created.
#[derive(Clone, Copy, Debug, PartialEq, Eq, Structural)]
pub enum ProfileError {
    /// The activation does not contain the word `text`.
    MissingTextMarker,
}

/// The title of the reply to a refused profile.
pub const CREATION_FAILED_TITLE: &'static str = "Profile Creation Failed!";
/// The explanation in the reply to a refused profile.
pub const CREATION_FAILED_DESCRIPTION: &'static str = "The profile activiation must include the word 'text', that represents where your message's content is. For example, ``ether:text`` or ``//text``.";
/// The title of the reply to a created profile.
pub const CREATED_TITLE: &'static str = "Profile Created";

/// The profile that a member creates with the profile form, or why it is
/// refused: the activation must contain `text`. A missing image URL is
/// stored as the empty string; the profile starts unused.
pub fn new_profile(
    name: String,
    activation: String,
    image_url: Option<String>,
    owner: u64,
    created_timestamp: u64,
) -> (r: Result<ProfileInfo, ProfileError>)
    ensures
        contains_text(activation@, TEXT_MARKER@) <==> r is Ok,
        r matches Ok(p) ==> {
            &&& p.name == name
            &&& p.activation == activation
            &&& p.image_url@ == (match image_url {
                Some(u) => u@,
                None => Seq::<char>::empty(),
            })
            &&& p.owner == owner
            &&& p.crated_timestamp == created_timestamp
            &&& p.last_used_timestamp == 0
            &&& p.uses == 0
        },
{
    if !contains(activation.as_str(), TEXT_MARKER) {
        return Err(ProfileError::MissingTextMarker);
    }
    let image = match image_url {
        Some(u) => u,
        None => String::new(),
    };
    Ok(ProfileInfo {
        name,
        activation,
        image_url: image,
        owner,
        crated_timestamp: created_timestamp,
        last_used_timestamp: 0,
        uses: 0,
    })
}

/// The description of the reply to a created profile.
pub fn created_description(name: &str, activation: &str) -> (r: String)
    ensures
        r@ == "Created a profile named ``"@ + name@ + "`` with activation ``"@ + activation@
            + "``."@,
{
    let mut r = String::from_str("Created a profile named ``");
    r.append(name);
    r.append("`` with activation ``");
    r.append(activation);
    r.append("``.");
    r
}

/// The label of the field that shows a profile's name.
pub const NAME_FIELD: &'static str = "Profile Name";
/// The label of the field that shows a profile's activation.
pub const ACTIVATION_FIELD: &'static str = "Profile Activation";
/// The label of the browser's delete button.
pub const DELETE_LABEL: &'static str = "Delete";
/// The label of the browser's edit button.
pub const EDIT_LABEL: &'static str = "Edit";

/// What one page of the profile browser shows.
#[derive(Debug)]
pub struct PageView {
    pub name: String,
    pub activation: String,
    /// The image, shown only when the profile has an image URL.
    pub image: Option<String>,
}

/// The page that shows `profile`.
pub fn page_view(profile: &ProfileInfo) -> (v: PageView)
    ensures
        v.name == profile.name,
        v.activation == profile.activation,
        v.image == (if profile.image_url@.len() == 0 {
            None::<String>
        } else {
            Some(profile.image_url)
        }),
{
    proof {
        reveal_strlit("");
        if profile.image_url@.len() == 0 {
            assert(profile.image_url@ =~= ""@);
        }
    }
    let image = if same_text(profile.image_url.as_str(), "") {
        None
    } else {
        Some(profile.image_url.clone())
    };
    PageView { name: profile.name.clone(), activation: profile.activation.clone(), image }
}

/// The page at `index` of `pages`, if there is one.
pub fn page_at(pages: &Vec<ProfileInfo>, index: usize) -> (v: Option<PageView>)
    ensures
        v is Some <==> index < pages@.len(),
        v matches Some(p) ==> {
            let profile = pages@[index as int];
            &&& p.name == profile.name
            &&& p.activation == profile.activation
            &&& p.image == (if profile.image_url@.len() == 0 {
                None::<String>
            } else {
                Some(profile.image_url)
            })
        },
{
    if index < pages.len() {
        Some(page_view(&pages[index]))
    } else {
        None
    }
}

/// The custom id of a browser button: the invocation id in decimal, then
/// the button's name.
pub fn button_id(invocation_id: u64, button: &str) -> (r: String)
    ensures
        r@ == decimal(invocation_id as nat) + button@,
{
    let mut r = String::new();
    push_decimal(&mut r, invocation_id);
    r.append(button);
    r
}

/// Whether a pressed button belongs to the browser of the invocation
/// `invocation_id`: its custom id starts with that id in decimal.
pub fn is_own_press(custom_id: &str, invocation_id: u64) -> (r: bool)
    ensures
        r == decimal(invocation_id as nat).is_prefix_of(custom_id@),
{
    let prefix = button_id(invocation_id, "");
    proof { reveal_strlit(""); }
    assert(prefix@ =~= decimal(invocation_id as nat));
    starts_with(custom_id, prefix.as_str())
}

/// A press on the profile browser, as the browser reads it.
#[derive(Clone, Copy, Debug, PartialEq, Eq, Structural)]
pub enum PageTurn {
    Next,
    Previous,
    /// Any other button: the page stays as it is.
    Other,
}

/// Reads a pressed button against the ids of the next and previous buttons.
pub fn classify_press(custom_id: &str, next_id: &str, previous_id: &str) -> (t: PageTurn)
    ensures
        t == (if custom_id@ == next_id@ {
            PageTurn::Next
        } else if custom_id@ == previous_id@ {
            PageTurn::Previous
        } else {
            PageTurn::Other
        }),
{
    if same_text(custom_id, next_id) {
        PageTurn::Next
    } else if same_text(custom_id, previous_id) {
        PageTurn::Previous
    } else {
        PageTurn::Other
    }
}

/// The page after one turn forward (to the next page) or back, going
/// round at either end.
pub open spec fn step_page(current: int, page_count: int, forward: bool) -> int {
    if forward {
        if current + 1 >= page_count { 0 } else { current + 1 }
    } else {
        if current == 0 { page_count - 1 } else { current - 1 }
    }
}

/// The page shown after a turn; `None` when the press turns no page.
pub open spec fn turned(current: int, page_count: int, turn: PageTurn) -> Option<int> {
    match turn {
        PageTurn::Next => Some(step_page(current, page_count, true)),
        PageTurn::Previous => Some(step_page(current, page_count, false)),
        PageTurn::Other => None,
    }
}

/// The page after `k` turns in the same direction.
pub open spec fn pages_turned(current: int, page_count: int, forward: bool, k: nat) -> int
    decreases k,
{
    if k == 0 {
        current
    } else {
        step_page(pages_turned(current, page_count, forward, (k - 1) as nat), page_count, forward)
    }
}

/// Turns the page of a browser of `page_count` pages that shows page
/// `current`.
pub fn turn_page(current: usize, page_count: usize, turn: PageTurn) -> (r: Option<usize>)
    requires
        current < page_count,
    ensures
        match turned(current as int, page_count as int, turn) {
            Some(p) => r == Some(p as usize),
            None => r is None,
        },
        r matches Some(p) ==> p < page_count,
{
    match turn {
        PageTurn::Next => {
            let next = current + 1;
            if next >= page_count { Some(0) } else { Some(next) }
        },
        PageTurn::Previous => {
            if current == 0 { Some(page_count - 1) } else { Some(current - 1) }
        },
        PageTurn::Other => None,
    }
}

} // verus!

verus! {

/// Turning to the next page and back shows the page one started from.
pub proof fn law_next_then_previous(current: int, page_count: int)
    requires
        0 <= current < page_count,
    ensures
        turned(turned(current, page_count, PageTurn::Next)->0, page_count, PageTurn::Previous)
            == Some(current),
{
}

/// Turning to the previous page and back shows the page one started from.
pub proof fn law_previous_then_next(current: int, page_count: int)
    requires
        0 <= current < page_count,
    ensures
        turned(turned(current, page_count, PageTurn::Previous)->0, page_count, PageTurn::Next)
            == Some(current),
{
}

/// Every turn of a page lands on a page that exists.
pub proof fn law_turn_stays_in_range(current: int, page_count: int, turn: PageTurn)
    requires
        0 <= current < page_count,
    ensures
        turned(current, page_count, turn) matches Some(p) ==> 0 <= p < page_count,
{
}

} // verus!

verus! {

proof fn lemma_turns_compose(current: int, page_count: int, forward: bool, a: nat, b: nat)
    ensures
        pages_turned(current, page_count, forward, a + b) == pages_turned(
            pages_turned(current, page_count, forward, a),
            page_count,
            forward,
            b,
        ),
    decreases b,
{
    if b > 0 {
        lemma_turns_compose(current, page_count, forward, a, (b - 1) as nat);
        assert((a + b - 1) as nat == a + (b - 1) as nat);
    }
}

proof fn lemma_forward_without_wrap(current: int, page_count: int, k: nat)
    requires
        0 <= current,
        current + k < page_count,
    ensures
        pages_turned(current, page_count, true, k) == current + k,
    decreases k,
{
    if k > 0 {
        lemma_forward_without_wrap(current, page_count, (k - 1) as nat);
    }
}

proof fn lemma_back_without_wrap(current: int, page_count: int, k: nat)
    requires
        k <= current < page_count,
    ensures
        pages_turned(current, page_count, false, k) == current - k,
    decreases k,
{
    if k > 0 {
        lemma_back_without_wrap(current, page_count, (k - 1) as nat);
    }
}

/// Turning forward as many times as there are pages comes back to the page
/// one started from.
pub proof fn law_full_round_forward(current: int, page_count: int)
    requires
        0 <= current < page_count,
    ensures
        pages_turned(current, page_count, true, page_count as nat) == current,
{
    let to_end = (page_count - 1 - current) as nat;
    lemma_forward_without_wrap(current, page_count, to_end);
    lemma_turns_compose(current, page_count, true, to_end, 1);
    assert(pages_turned(current, page_count, true, to_end + 1) == 0);
    lemma_forward_without_wrap(0, page_count, current as nat);
    lemma_turns_compose(current, page_count, true, to_end + 1, current as nat);
    assert(to_end + 1 + current as nat == page_count as nat);
}

/// Turning back as many times as there are pages comes back to the page
/// one started from.
pub proof fn law_full_round_back(current: int, page_count: int)
    requires
        0 <= current < page_count,
    ensures
        pages_turned(current, page_count, false, page_count as nat) == current,
{
    lemma_back_without_wrap(current, page_count, current as nat);
    lemma_turns_compose(current, page_count, false, current as nat, 1);
    assert(pages_turned(current, page_count, false, current as nat + 1) == page_count - 1);
    let rest = (page_count - 1 - current) as nat;
    lemma_back_without_wrap(page_count - 1, page_count, rest);
    lemma_turns_compose(current, page_count, false, current as nat + 1, rest);
    assert(current as nat + 1 + rest == page_count as nat);
}

proof fn lemma_turned_in_range(current: int, page_count: int, forward: bool, k: nat)
    requires
        0 <= current < page_count,
    ensures
        0 <= pages_turned(current, page_count, forward, k) < page_count,
    decreases k,
{
    if k > 0 {
        lemma_turned_in_range(current, page_count, forward, (k - 1) as nat);
    }
}

/// Turning `k` pages one way and `k` pages back shows the page one started
/// from.
pub proof fn law_there_and_back(current: int, page_count: int, forward: bool, k: nat)
    requires
        0 <= current < page_count,
    ensures
        pages_turned(pages_turned(current, page_count, forward, k), page_count, !forward, k)
            == current,
    decreases k,
{
    if k > 0 {
        let k1 = (k - 1) as nat;
        let mid = pages_turned(current, page_count, forward, k1);
        lemma_turned_in_range(current, page_count, forward, k1);
        let out = step_page(mid, page_count, forward);
        assert(step_page(out, page_count, !forward) == mid);
        assert(pages_turned(current, page_count, forward, k) == out);
        assert(pages_turned(out, page_count, !forward, 0) == out);
        assert(pages_turned(out, page_count, !forward, 1) == mid);
        lemma_turns_compose(out, page_count, !forward, 1, k1);
        assert(1 + k1 == k);
        law_there_and_back(current, page_count, forward, k1);
    }
}

} // verus!
