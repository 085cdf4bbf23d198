//! The settings of the user.

use vstd::prelude::*;

use crate::chat::msg::{Msg, ProfileMsg};
use crate::chat::state::AppState;
use crate::chat::types::{Rgb, SessionInfo, SettingsTab};
use crate::chat::view::forms::{is_setup_view, setup_view, SetupView};
use crate::chat::view::parts::{
    avatar_element, busy_press, is_busy_press, is_face, is_press, press, Control, Face,
};
use crate::text::{concat2, concat3, copy_text};
use crate::time::{format_local_time, time_label};

verus! {

/// A colour that is offered, in hundredths of full strength.
pub open spec fn offered(i: int) -> (int, int, int) {
    if i == 0 {
        (49, 36, 88)
    } else if i == 1 {
        (32, 55, 95)
    } else if i == 2 {
        (25, 72, 78)
    } else if i == 3 {
        (35, 72, 45)
    } else if i == 4 {
        (85, 68, 22)
    } else if i == 5 {
        (92, 49, 28)
    } else if i == 6 {
        (90, 35, 45)
    } else {
        (78, 40, 68)
    }
}

/// A share in hundredths as a number of eight bits, rounded.
pub open spec fn eight_bits(h: int) -> int {
    (h * 255 + 50) / 100
}

/// Whether a number of eight bits is less than a hundredth away from a share.
pub open spec fn close(h: int, n: u8) -> bool {
    -255 < h * 255 - n * 100 < 255
}

/// A colour that is offered, and whether it is the one in use.
pub struct Swatch {
    pub color: Rgb,
    pub selected: bool,
}

pub open spec fn is_swatch(s: Swatch, h: (int, int, int), accent: Rgb) -> bool {
    &&& s.color.r == eight_bits(h.0) && s.color.g == eight_bits(h.1) && s.color.b == eight_bits(h.2)
    &&& s.selected == (close(h.0, accent.r) && close(h.1, accent.g) && close(h.2, accent.b))
}

fn to_eight_bits(h: u32) -> (r: u8)
    requires
        h <= 100,
    ensures
        r == eight_bits(h as int),
{
    ((h * 255 + 50) / 100) as u8
}

fn is_close(h: u32, n: u8) -> (b: bool)
    requires
        h <= 100,
    ensures
        b == close(h as int, n),
{
    let d: i32 = h as i32 * 255 - n as i32 * 100;
    -255 < d && d < 255
}

fn swatch(r: u32, g: u32, b: u32, accent: Rgb) -> (s: Swatch)
    requires
        r <= 100,
        g <= 100,
        b <= 100,
    ensures
        is_swatch(s, (r as int, g as int, b as int), accent),
{
    Swatch {
        color: Rgb { r: to_eight_bits(r), g: to_eight_bits(g), b: to_eight_bits(b) },
        selected: is_close(r, accent.r) && is_close(g, accent.g) && is_close(b, accent.b),
    }
}

/// The colours that are offered.
pub fn swatches(accent: Rgb) -> (r: Vec<Swatch>)
    ensures
        r.len() == 8,
        forall|i: int| 0 <= i < 8 ==> is_swatch(#[trigger] r@[i], offered(i), accent),
{
    let mut r: Vec<Swatch> = Vec::new();
    r.push(swatch(49, 36, 88, accent));
    r.push(swatch(32, 55, 95, accent));
    r.push(swatch(25, 72, 78, accent));
    r.push(swatch(35, 72, 45, accent));
    r.push(swatch(85, 68, 22, accent));
    r.push(swatch(92, 49, 28, accent));
    r.push(swatch(90, 35, 45, accent));
    r.push(swatch(78, 40, 68, accent));
    r
}

/// A colour that is taken from the offer shows as the one in use.
pub proof fn chosen_colour_is_selected(s: Swatch, h: (int, int, int))
    requires
        0 <= h.0 <= 100,
        0 <= h.1 <= 100,
        0 <= h.2 <= 100,
        is_swatch(s, h, s.color),
    ensures
        s.selected,
{
}

/// The second factor: it is on for good, or still has to be set up.
pub enum TwoFaSection {
    Enabled,
    Setup(SetupView),
}

/// A device that is logged in.
pub struct DeviceRow {
    pub title: String,
    pub detail: String,
    /// Logging the device out; not for the one in use.
    pub revoke: Option<Msg>,
}

pub open spec fn is_device_row(r: DeviceRow, s: SessionInfo) -> bool {
    let device = match s.device_id {
        Some(d) => d@,
        None => "Unknown device"@,
    };
    let ip = match s.login_ip {
        Some(i) => i@,
        None => "unknown IP"@,
    };
    &&& r.title@ == device + " "@ + (if s.current {
        "this device"@
    } else {
        Seq::empty()
    })
    &&& r.detail@ == ip + " · "@ + time_label(s.created_at@)
    &&& r.revoke == if s.current {
        None
    } else {
        Some(Msg::Profile(ProfileMsg::RevokeSession(s.id)))
    }
}

/// What a tab of the settings shows.
pub enum SettingsBody {
    General {
        face: Face,
        choose: Control,
        display_name: String,
        bio: String,
        swatches: Vec<Swatch>,
        accent: Rgb,
        accent_hex: String,
        twofa: TwoFaSection,
    },
    Privacy { state: String, toggle: Control },
    /// The devices are being looked up.
    LoadingDevices,
    /// Empty where there are none.
    Devices(Vec<DeviceRow>),
}

pub struct SettingsView {
    pub username: String,
    pub email: String,
    pub tab: SettingsTab,
    pub body: SettingsBody,
}

pub open spec fn is_twofa_section(t: TwoFaSection, s: AppState) -> bool {
    let enabled = match s.session.user {
        Some(u) => u.totp_enabled,
        None => false,
    };
    if enabled {
        t is Enabled
    } else {
        t matches TwoFaSection::Setup(v) && is_setup_view(v, s, "Set up 2FA"@)
    }
}

pub open spec fn is_general(b: SettingsBody, s: AppState) -> bool {
    &&& b matches SettingsBody::General {
        face,
        choose,
        display_name,
        bio,
        swatches,
        accent,
        accent_hex,
        twofa,
    }
    &&& match s.session.user {
        Some(u) => is_face(face, s.people.avatars@, u.id, u.display_name@),
        None => face matches Face::Letters { text, hue } && text@ == "?"@ && hue == 0,
    }
    &&& is_busy_press(
        choose,
        s.people.avatar_busy,
        "Choose image…"@,
        Msg::Profile(ProfileMsg::PickAvatar),
    )
    &&& display_name == s.people.display_name_input
    &&& bio == s.people.bio_input
    &&& swatches.len() == 8
    &&& forall|i: int| 0 <= i < 8 ==> is_swatch(#[trigger] swatches@[i], offered(i), s.people.accent)
    &&& accent == s.people.accent
    &&& accent_hex == s.people.accent_hex_input
    &&& is_twofa_section(twofa, s)
}

pub open spec fn is_privacy(b: SettingsBody, s: AppState) -> bool {
    let visible = match s.session.user {
        Some(u) => u.profile_visible,
        None => true,
    };
    &&& b matches SettingsBody::Privacy { state, toggle }
    &&& state@ == if visible {
        "Visible to everyone"@
    } else {
        "Hidden (bare-bones for others)"@
    }
    &&& is_press(
        toggle,
        if visible {
            "Hide"@
        } else {
            "Show"@
        },
        Msg::Profile(ProfileMsg::ProfileVisibleToggled(!visible)),
    )
}

pub open spec fn is_devices(b: SettingsBody, s: AppState) -> bool {
    let list = s.people.sessions@;
    if s.people.sessions_busy {
        b is LoadingDevices
    } else {
        &&& b matches SettingsBody::Devices(rows)
        &&& rows@.len() == list.len()
        &&& forall|i: int| 0 <= i < list.len() ==> is_device_row(#[trigger] rows@[i], list[i])
    }
}

pub open spec fn is_settings_view(v: SettingsView, s: AppState) -> bool {
    &&& v.username@ == "Username: "@ + (match s.session.user {
        Some(u) => u.username@,
        None => Seq::empty(),
    })
    &&& v.email@ == "Email: "@ + (match s.session.user {
        Some(u) => u.email@,
        None => Seq::empty(),
    })
    &&& v.tab == s.people.settings_tab
    &&& match s.people.settings_tab {
        SettingsTab::General => is_general(v.body, s),
        SettingsTab::Privacy => is_privacy(v.body, s),
        SettingsTab::Devices => is_devices(v.body, s),
    }
}

fn device_row(s: &SessionInfo) -> (r: DeviceRow)
    ensures
        is_device_row(r, *s),
{
    let device = match &s.device_id {
        Some(d) => d.clone(),
        None => copy_text("Unknown device"),
    };
    let ip = match &s.login_ip {
        Some(i) => i.clone(),
        None => copy_text("unknown IP"),
    };
    let title = if s.current {
        concat3(device.as_str(), " ", "this device")
    } else {
        concat2(device.as_str(), " ")
    };
    proof {
        if !s.current {
            assert(title@ =~= device@ + " "@ + Seq::<char>::empty());
        }
    }
    let time = format_local_time(s.created_at.as_str());
    let revoke = if s.current {
        None
    } else {
        Some(Msg::Profile(ProfileMsg::RevokeSession(s.id)))
    };
    DeviceRow { title, detail: concat3(ip.as_str(), " · ", time.as_str()), revoke }
}

fn twofa_section(state: &AppState) -> (t: TwoFaSection)
    ensures
        is_twofa_section(t, *state),
{
    let enabled = match &state.session.user {
        Some(u) => u.totp_enabled,
        None => false,
    };
    if enabled {
        TwoFaSection::Enabled
    } else {
        TwoFaSection::Setup(setup_view(state, "Set up 2FA"))
    }
}

fn general(state: &AppState) -> (b: SettingsBody)
    ensures
        is_general(b, *state),
{
    let face = match &state.session.user {
        Some(u) => avatar_element(state, u.id, u.display_name.as_str()),
        None => Face::Letters { text: copy_text("?"), hue: 0 },
    };
    SettingsBody::General {
        face,
        choose: busy_press(
            state.people.avatar_busy,
            "Choose image…",
            Msg::Profile(ProfileMsg::PickAvatar),
        ),
        display_name: state.people.display_name_input.clone(),
        bio: state.people.bio_input.clone(),
        swatches: swatches(state.people.accent),
        accent: state.people.accent,
        accent_hex: state.people.accent_hex_input.clone(),
        twofa: twofa_section(state),
    }
}

fn privacy(state: &AppState) -> (b: SettingsBody)
    ensures
        is_privacy(b, *state),
{
    let visible = match &state.session.user {
        Some(u) => u.profile_visible,
        None => true,
    };
    let toggle = press(
        if visible {
            "Hide"
        } else {
            "Show"
        },
        Msg::Profile(ProfileMsg::ProfileVisibleToggled(!visible)),
    );
    let text = if visible {
        copy_text("Visible to everyone")
    } else {
        copy_text("Hidden (bare-bones for others)")
    };
    SettingsBody::Privacy { state: text, toggle }
}

fn devices(state: &AppState) -> (b: SettingsBody)
    ensures
        is_devices(b, *state),
{
    if state.people.sessions_busy {
        return SettingsBody::LoadingDevices;
    }
    let list = &state.people.sessions;
    let mut rows: Vec<DeviceRow> = Vec::new();
    let mut i: usize = 0;
    while i < list.len()
        invariant
            i <= list.len(),
            list == state.people.sessions,
            rows.len() == i,
            forall|j: int| 0 <= j < i ==> is_device_row(#[trigger] rows@[j], list@[j]),
        decreases list.len() - i,
    {
        rows.push(device_row(&list[i]));
        i += 1;
    }
    SettingsBody::Devices(rows)
}

pub fn view_settings(state: &AppState) -> (v: SettingsView)
    ensures
        is_settings_view(v, *state),
{
    let (username, email) = match &state.session.user {
        Some(u) => (concat2("Username: ", u.username.as_str()), concat2(
            "Email: ",
            u.email.as_str(),
        )),
        None => {
            let a = copy_text("Username: ");
            let b = copy_text("Email: ");
            proof {
                assert(a@ =~= "Username: "@ + Seq::<char>::empty());
                assert(b@ =~= "Email: "@ + Seq::<char>::empty());
            }
            (a, b)
        },
    };
    let body = match state.people.settings_tab {
        SettingsTab::General => general(state),
        SettingsTab::Privacy => privacy(state),
        SettingsTab::Devices => devices(state),
    };
    SettingsView { username, email, tab: state.people.settings_tab, body }
}

/// The device in use is never offered to be logged out.
pub proof fn own_device_stays(r: DeviceRow, s: SessionInfo)
    requires
        is_device_row(r, s),
        s.current,
    ensures
        r.revoke is None,
{
}

/// The second factor cannot be turned off in the settings.
pub proof fn second_factor_stays(t: TwoFaSection, s: AppState)
    requires
        is_twofa_section(t, s),
        s.session.user matches Some(u) && u.totp_enabled,
    ensures
        t is Enabled,
{
}

} // verus!
