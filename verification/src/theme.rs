//! The start-up plan: the steps that carry the settings to the toolkit, in
//! the order in which they are applied, and which of them decides the colour
//! of each role.
//!
//! The toolkit keeps one process-wide palette, and whoever sets a colour last
//! wins. The plan makes this order explicit. It is built once from the
//! settings and never changed: defaults for the roles that the settings leave
//! open, the accent colours, the scheme, the broad colour map, the widget
//! theme, then the colours that the settings name for single roles, and last
//! the font.

use crate::color::{Color, ColorMap};
use crate::settings::{Font, Role, Scheme, Settings, ThemeType};
use vstd::prelude::*;

verus! {

/// One step of the start-up plan.
#[derive(Clone, Copy, Debug, PartialEq, Eq, Structural)]
pub enum Step {
    /// Give a role its colour. The toolkit may derive further colours from
    /// it.
    Role(Role, Color),
    /// Give a slot of the palette a colour.
    Slot(u8, Color),
    /// Show or hide the frame around the focused widget.
    VisibleFocus(bool),
    /// Select the coarse visual style.
    Scheme(Scheme),
    /// Apply the colour map of the settings: each entry gives its slot of
    /// the palette its colour, in the order of the map.
    ColorMap,
    /// Apply a widget theme.
    Skin(ThemeType),
    /// Select the default font.
    Font(Font),
    /// Set the size of the default font.
    FontSize(u8),
}

/// The accent colours, which every plan sets.
pub open spec fn accents() -> Seq<Step> {
    seq![
        Step::Slot(95, Color { r: 0xb5, g: 0x89, b: 0x00 }),
        Step::Slot(88, Color { r: 0xdc, g: 0x32, b: 0x2f }),
        Step::Slot(248, Color { r: 0xd3, g: 0x36, b: 0x82 }),
        Step::Slot(216, Color { r: 0x26, g: 0x8b, b: 0xd2 }),
        Step::Slot(223, Color { r: 0x2a, g: 0xa1, b: 0x98 }),
        Step::Slot(63, Color { r: 0x85, g: 0x99, b: 0x00 }),
    ]
}

/// The default of a role, where the settings name no colour for it.
pub open spec fn default_steps(settings: &Settings, role: Role) -> Seq<Step> {
    if settings.color(role) is None {
        seq![Step::Role(role, role.fallback())]
    } else {
        Seq::empty()
    }
}

/// The colour that the settings name for a role, where they name one.
pub open spec fn named_steps(settings: &Settings, role: Role) -> Seq<Step> {
    match settings.color(role) {
        Some(color) => seq![Step::Role(role, color)],
        None => Seq::empty(),
    }
}

/// The defaults of all roles that the settings leave open.
pub open spec fn defaults(settings: &Settings) -> Seq<Step> {
    default_steps(settings, Role::Background) + default_steps(settings, Role::Background2)
        + default_steps(settings, Role::Foreground) + default_steps(settings, Role::Selection)
        + default_steps(settings, Role::Inactive)
}

/// The broad part of the plan: scheme, colour map and widget theme.
pub open spec fn broad(settings: &Settings) -> Seq<Step> {
    (match settings.scheme {
        Some(scheme) => seq![Step::Scheme(scheme)],
        None => Seq::empty(),
    }) + (if settings.color_map is Some {
        seq![Step::ColorMap]
    } else {
        Seq::empty()
    }) + (match settings.theme {
        Some(theme) => seq![Step::Skin(theme)],
        None => Seq::empty(),
    })
}

/// The colours that the settings name for single roles.
pub open spec fn named(settings: &Settings) -> Seq<Step> {
    named_steps(settings, Role::Background) + named_steps(settings, Role::Background2)
        + named_steps(settings, Role::Foreground) + named_steps(settings, Role::Selection)
        + named_steps(settings, Role::Inactive)
}

/// The font part of the plan, which comes last.
pub open spec fn lettering(settings: &Settings) -> Seq<Step> {
    seq![
        Step::Font(
            match settings.font {
                Some(font) => font,
                None => Font::CourierBold,
            },
        ),
    ] + (if settings.font_size != 0 {
        seq![Step::FontSize(settings.font_size)]
    } else {
        Seq::empty()
    })
}

/// The start-up plan of the given settings.
pub open spec fn startup_plan(settings: &Settings) -> Seq<Step> {
    defaults(settings) + accents() + seq![Step::VisibleFocus(false)] + broad(settings) + named(
        settings,
    ) + lettering(settings)
}

/// Appends the default of a role, where the settings name no colour for it.
fn push_default(steps: &mut Vec<Step>, settings: &Settings, role: Role)
    ensures
        final(steps)@ == old(steps)@ + default_steps(settings, role),
{
    if settings.color(role).is_none() {
        steps.push(Step::Role(role, role.fallback()));
    }
    assert(steps@ =~= old(steps)@ + default_steps(settings, role));
}

/// Appends the colour that the settings name for a role, where they name one.
fn push_named(steps: &mut Vec<Step>, settings: &Settings, role: Role)
    ensures
        final(steps)@ == old(steps)@ + named_steps(settings, role),
{
    if let Some(color) = settings.color(role) {
        steps.push(Step::Role(role, color));
    }
    assert(steps@ =~= old(steps)@ + named_steps(settings, role));
}

/// Appends the defaults of all roles that the settings leave open.
fn push_defaults(steps: &mut Vec<Step>, settings: &Settings)
    ensures
        final(steps)@ == old(steps)@ + defaults(settings),
{
    push_default(steps, settings, Role::Background);
    push_default(steps, settings, Role::Background2);
    push_default(steps, settings, Role::Foreground);
    push_default(steps, settings, Role::Selection);
    push_default(steps, settings, Role::Inactive);
    assert(steps@ =~= old(steps)@ + defaults(settings));
}

/// Appends the steps that every plan has after the defaults: the accent
/// colours and the hidden focus frame.
fn push_fixed(steps: &mut Vec<Step>)
    ensures
        final(steps)@ == old(steps)@ + accents() + seq![Step::VisibleFocus(false)],
{
    steps.push(Step::Slot(95, Color { r: 0xb5, g: 0x89, b: 0x00 }));
    steps.push(Step::Slot(88, Color { r: 0xdc, g: 0x32, b: 0x2f }));
    steps.push(Step::Slot(248, Color { r: 0xd3, g: 0x36, b: 0x82 }));
    steps.push(Step::Slot(216, Color { r: 0x26, g: 0x8b, b: 0xd2 }));
    steps.push(Step::Slot(223, Color { r: 0x2a, g: 0xa1, b: 0x98 }));
    steps.push(Step::Slot(63, Color { r: 0x85, g: 0x99, b: 0x00 }));
    steps.push(Step::VisibleFocus(false));
    assert(steps@ =~= old(steps)@ + accents() + seq![Step::VisibleFocus(false)]);
}

/// Appends the broad part: scheme, colour map and widget theme.
fn push_broad(steps: &mut Vec<Step>, settings: &Settings)
    ensures
        final(steps)@ == old(steps)@ + broad(settings),
{
    if let Some(scheme) = settings.scheme {
        steps.push(Step::Scheme(scheme));
    }
    if settings.color_map.is_some() {
        steps.push(Step::ColorMap);
    }
    if let Some(theme) = settings.theme {
        steps.push(Step::Skin(theme));
    }
    assert(steps@ =~= old(steps)@ + broad(settings));
}

/// Appends the colours that the settings name for single roles.
fn push_all_named(steps: &mut Vec<Step>, settings: &Settings)
    ensures
        final(steps)@ == old(steps)@ + named(settings),
{
    push_named(steps, settings, Role::Background);
    push_named(steps, settings, Role::Background2);
    push_named(steps, settings, Role::Foreground);
    push_named(steps, settings, Role::Selection);
    push_named(steps, settings, Role::Inactive);
    assert(steps@ =~= old(steps)@ + named(settings));
}

/// Appends the font part.
fn push_lettering(steps: &mut Vec<Step>, settings: &Settings)
    ensures
        final(steps)@ == old(steps)@ + lettering(settings),
{
    steps.push(
        Step::Font(
            match settings.font {
                Some(font) => font,
                None => Font::CourierBold,
            },
        ),
    );
    if settings.font_size != 0 {
        steps.push(Step::FontSize(settings.font_size));
    }
    assert(steps@ =~= old(steps)@ + lettering(settings));
}

/// Builds the start-up plan of the given settings: the steps to apply to the
/// toolkit before the first view is built, first to last.
pub fn plan(settings: &Settings) -> (steps: Vec<Step>)
    ensures
        steps@ == startup_plan(settings),
{
    let mut steps: Vec<Step> = Vec::new();
    push_defaults(&mut steps, settings);
    assert(steps@ =~= defaults(settings));
    push_fixed(&mut steps);
    push_broad(&mut steps, settings);
    push_all_named(&mut steps, settings);
    push_lettering(&mut steps, settings);
    steps
}

/// The entries of the colour map of the settings, in their order; none
/// where the settings hold no colour map.
pub open spec fn entries(settings: &Settings) -> Seq<ColorMap> {
    match settings.color_map {
        Some(map) => map@,
        None => Seq::empty(),
    }
}

/// The colour that a colour map gives a slot: that of the last entry for it.
pub open spec fn mapped(map: Seq<ColorMap>, slot: u8) -> Option<Color>
    decreases map.len(),
{
    if map.len() == 0 {
        None
    } else if map.last().index == slot {
        Some(map.last().shade())
    } else {
        mapped(map.drop_last(), slot)
    }
}

/// The colour that the colour map of the settings gives a slot.
pub open spec fn mapped_by(settings: &Settings, slot: u8) -> Option<Color> {
    mapped(entries(settings), slot)
}

/// Whether a step sets the colour of a role, or may change it, where `map`
/// is the colour map that the plan applies. A step for a role sets its
/// colour; so does a step for the slot in which the toolkit keeps the role,
/// and the colour map where it has an entry for that slot. The toolkit may
/// adjust the foreground when it is given a second background, to keep text
/// readable, and a scheme or a widget theme may change any colour.
pub open spec fn concerns(step: Step, map: Seq<ColorMap>, role: Role) -> bool {
    match step {
        Step::Role(named, _) => named == role || (named == Role::Background2 && role
            == Role::Foreground),
        Step::Slot(index, _) => index == role.slot(),
        Step::ColorMap => mapped(map, role.slot()) is Some,
        Step::Scheme(_) | Step::Skin(_) => true,
        Step::VisibleFocus(_) | Step::Font(_) | Step::FontSize(_) => false,
    }
}

/// The step that decides the colour of a role when the steps are applied
/// first to last: the last one that concerns the role. `None` where no step
/// concerns it.
pub open spec fn winner(steps: Seq<Step>, map: Seq<ColorMap>, role: Role) -> Option<Step>
    decreases steps.len(),
{
    if steps.len() == 0 {
        None
    } else if concerns(steps.last(), map, role) {
        Some(steps.last())
    } else {
        winner(steps.drop_last(), map, role)
    }
}

/// Where the colour of a role comes from, by precedence:
/// the colour that the settings name for the role;
/// for the foreground, the toolkit's adjustment to a named second background;
/// the widget theme;
/// the colour map, where it has an entry for the slot of the role;
/// the scheme;
/// the default of the role.
pub open spec fn decided(settings: &Settings, role: Role) -> Step {
    if let Some(color) = settings.color(role) {
        Step::Role(role, color)
    } else if role == Role::Foreground && settings.background2 is Some {
        Step::Role(Role::Background2, settings.background2->Some_0)
    } else if let Some(theme) = settings.theme {
        Step::Skin(theme)
    } else if mapped_by(settings, role.slot()) is Some {
        Step::ColorMap
    } else if let Some(scheme) = settings.scheme {
        Step::Scheme(scheme)
    } else {
        Step::Role(role, role.fallback())
    }
}

/// The colour that the plan gives a role, where the settings say which: the
/// colour that they name for the role, the colour of the last entry of the
/// colour map for the slot of the role, or the default of the role. `None`
/// where the toolkit picks the colour, in a scheme, a widget theme or its
/// adjustment of the foreground.
pub open spec fn given(settings: &Settings, role: Role) -> Option<Color> {
    match decided(settings, role) {
        Step::Role(named, color) if named == role => Some(color),
        Step::ColorMap => mapped_by(settings, role.slot()),
        _ => None,
    }
}

/// Looks up the colour that a colour map gives a slot: that of the last
/// entry for it.
pub fn mapped_color(map: &Vec<ColorMap>, slot: u8) -> (color: Option<Color>)
    ensures
        color == mapped(map@, slot),
{
    let mut left: usize = map.len();
    assert(map@.take(left as int) =~= map@);
    while left > 0
        invariant
            left <= map.len(),
            mapped(map@, slot) == mapped(map@.take(left as int), slot),
        decreases left,
    {
        let entry = &map[left - 1];
        let ghost front = map@.take(left as int);
        assert(front.last() == *entry);
        assert(front.drop_last() =~= map@.take(left - 1));
        if entry.index == slot {
            return Some(entry.color());
        }
        left -= 1;
    }
    None
}

/// Looks up the colour that the colour map of the settings gives a slot.
fn mapped_in(settings: &Settings, slot: u8) -> (color: Option<Color>)
    ensures
        color == mapped_by(settings, slot),
{
    match &settings.color_map {
        Some(map) => mapped_color(map, slot),
        None => None,
    }
}

/// Says which colour the plan of the settings gives a role, where the
/// settings say which.
pub fn color_of(settings: &Settings, role: Role) -> (color: Option<Color>)
    ensures
        color == given(settings, role),
{
    if let Some(color) = settings.color(role) {
        Some(color)
    } else if role == Role::Foreground && settings.background2.is_some() {
        None
    } else if settings.theme.is_some() {
        None
    } else if let Some(color) = mapped_in(settings, role.slot()) {
        Some(color)
    } else if settings.scheme.is_some() {
        None
    } else {
        Some(role.fallback())
    }
}

/// Says which step of a plan decides the colour of a role: the last one that
/// concerns the role. The colour map that the plan applies is that of the
/// settings.
pub fn winner_of(steps: &Vec<Step>, settings: &Settings, role: Role) -> (last: Option<Step>)
    ensures
        last == winner(steps@, entries(settings), role),
{
    let in_map = mapped_in(settings, role.slot()).is_some();
    let mut left: usize = steps.len();
    assert(steps@.take(left as int) =~= steps@);
    while left > 0
        invariant
            left <= steps.len(),
            in_map == (mapped(entries(settings), role.slot()) is Some),
            winner(steps@, entries(settings), role) == winner(
                steps@.take(left as int),
                entries(settings),
                role,
            ),
        decreases left,
    {
        let step = steps[left - 1];
        let ghost front = steps@.take(left as int);
        assert(front.last() == step);
        assert(front.drop_last() =~= steps@.take(left - 1));
        let concerned = match step {
            Step::Role(named, _) => named == role || (named == Role::Background2 && role
                == Role::Foreground),
            Step::Slot(index, _) => index == role.slot(),
            Step::ColorMap => in_map,
            Step::Scheme(_) | Step::Skin(_) => true,
            Step::VisibleFocus(_) | Step::Font(_) | Step::FontSize(_) => false,
        };
        if concerned {
            return Some(step);
        }
        left -= 1;
    }
    None
}

/// Of two sequences applied one after the other, the second decides where it
/// concerns the role at all.
pub proof fn lemma_winner_concat(
    first: Seq<Step>,
    second: Seq<Step>,
    map: Seq<ColorMap>,
    role: Role,
)
    ensures
        winner(first + second, map, role) == (if winner(second, map, role) is Some {
            winner(second, map, role)
        } else {
            winner(first, map, role)
        }),
    decreases second.len(),
{
    if second.len() == 0 {
        assert(first + second =~= first);
    } else {
        lemma_winner_concat(first, second.drop_last(), map, role);
        assert((first + second).drop_last() =~= first + second.drop_last());
        assert((first + second).last() == second.last());
    }
}

/// The winner among at most one step.
proof fn lemma_winner_short(steps: Seq<Step>, map: Seq<ColorMap>, role: Role)
    requires
        steps.len() <= 1,
    ensures
        winner(steps, map, role) == (if steps.len() == 1 && concerns(steps[0], map, role) {
            Some(steps[0])
        } else {
            None
        }),
{
    if steps.len() == 1 {
        assert(steps.drop_last().len() == 0);
        assert(winner(steps.drop_last(), map, role) is None);
        assert(steps.last() == steps[0]);
    }
}

/// The winner among the steps of five roles, taken in the order of a plan,
/// where each role has at most one step, and that one for itself.
proof fn lemma_winner_roles(
    bg: Seq<Step>,
    bg2: Seq<Step>,
    fg: Seq<Step>,
    sel: Seq<Step>,
    ina: Seq<Step>,
    map: Seq<ColorMap>,
    role: Role,
)
    requires
        bg.len() <= 1 && (bg.len() == 1 ==> bg[0] is Role && bg[0]->Role_0 == Role::Background),
        bg2.len() <= 1 && (bg2.len() == 1 ==> bg2[0] is Role && bg2[0]->Role_0
            == Role::Background2),
        fg.len() <= 1 && (fg.len() == 1 ==> fg[0] is Role && fg[0]->Role_0 == Role::Foreground),
        sel.len() <= 1 && (sel.len() == 1 ==> sel[0] is Role && sel[0]->Role_0 == Role::Selection),
        ina.len() <= 1 && (ina.len() == 1 ==> ina[0] is Role && ina[0]->Role_0 == Role::Inactive),
    ensures
        winner(bg + bg2 + fg + sel + ina, map, role) == (match role {
            Role::Background => winner(bg, map, role),
            Role::Background2 => winner(bg2, map, role),
            Role::Foreground => if fg.len() == 1 {
                winner(fg, map, role)
            } else {
                winner(bg2, map, role)
            },
            Role::Selection => winner(sel, map, role),
            Role::Inactive => winner(ina, map, role),
        }),
{
    lemma_winner_concat(bg, bg2, map, role);
    lemma_winner_concat(bg + bg2, fg, map, role);
    lemma_winner_concat(bg + bg2 + fg, sel, map, role);
    lemma_winner_concat(bg + bg2 + fg + sel, ina, map, role);
    lemma_winner_short(bg, map, role);
    lemma_winner_short(bg2, map, role);
    lemma_winner_short(fg, map, role);
    lemma_winner_short(sel, map, role);
    lemma_winner_short(ina, map, role);
}

/// The winner among the colours that the settings name: the colour named for
/// the role; for the foreground, where none is named for it, a named second
/// background.
proof fn lemma_winner_named(settings: &Settings, role: Role)
    ensures
        winner(named(settings), entries(settings), role) == (if let Some(color) = settings.color(
            role,
        ) {
            Some(Step::Role(role, color))
        } else if role == Role::Foreground && settings.background2 is Some {
            Some(Step::Role(Role::Background2, settings.background2->Some_0))
        } else {
            None
        }),
{
    let map = entries(settings);
    let bg = named_steps(settings, Role::Background);
    let bg2 = named_steps(settings, Role::Background2);
    let fg = named_steps(settings, Role::Foreground);
    let sel = named_steps(settings, Role::Selection);
    let ina = named_steps(settings, Role::Inactive);
    lemma_winner_roles(bg, bg2, fg, sel, ina, map, role);
    lemma_winner_short(bg, map, role);
    lemma_winner_short(bg2, map, role);
    lemma_winner_short(fg, map, role);
    lemma_winner_short(sel, map, role);
    lemma_winner_short(ina, map, role);
}

/// The winner among the defaults: the default of the role, where the
/// settings name no colour for it; for the foreground, where they name one
/// for it, the default of the second background.
proof fn lemma_winner_defaults(settings: &Settings, role: Role)
    ensures
        winner(defaults(settings), entries(settings), role) == (if settings.color(role) is None {
            Some(Step::Role(role, role.fallback()))
        } else if role == Role::Foreground && settings.background2 is None {
            Some(Step::Role(Role::Background2, Role::Background2.fallback()))
        } else {
            None
        }),
{
    let map = entries(settings);
    let bg = default_steps(settings, Role::Background);
    let bg2 = default_steps(settings, Role::Background2);
    let fg = default_steps(settings, Role::Foreground);
    let sel = default_steps(settings, Role::Selection);
    let ina = default_steps(settings, Role::Inactive);
    lemma_winner_roles(bg, bg2, fg, sel, ina, map, role);
    lemma_winner_short(bg, map, role);
    lemma_winner_short(bg2, map, role);
    lemma_winner_short(fg, map, role);
    lemma_winner_short(sel, map, role);
    lemma_winner_short(ina, map, role);
}

/// The winner among the broad steps: the widget theme, else the colour map
/// where it has an entry for the slot of the role, else the scheme.
proof fn lemma_winner_broad(settings: &Settings, role: Role)
    ensures
        winner(broad(settings), entries(settings), role) == (if let Some(theme) = settings.theme {
            Some(Step::Skin(theme))
        } else if mapped_by(settings, role.slot()) is Some {
            Some(Step::ColorMap)
        } else if let Some(scheme) = settings.scheme {
            Some(Step::Scheme(scheme))
        } else {
            None
        }),
{
    let map = entries(settings);
    let scheme: Seq<Step> = match settings.scheme {
        Some(scheme) => seq![Step::Scheme(scheme)],
        None => Seq::empty(),
    };
    let colors: Seq<Step> = if settings.color_map is Some {
        seq![Step::ColorMap]
    } else {
        Seq::empty()
    };
    let skin: Seq<Step> = match settings.theme {
        Some(theme) => seq![Step::Skin(theme)],
        None => Seq::empty(),
    };
    lemma_winner_concat(scheme, colors, map, role);
    lemma_winner_concat(scheme + colors, skin, map, role);
    lemma_winner_short(scheme, map, role);
    lemma_winner_short(colors, map, role);
    lemma_winner_short(skin, map, role);
}

/// The accents, the focus frame and the font concern no role.
proof fn lemma_winner_fixed(settings: &Settings, role: Role)
    ensures
        winner(accents(), entries(settings), role) is None,
        winner(seq![Step::VisibleFocus(false)], entries(settings), role) is None,
        winner(lettering(settings), entries(settings), role) is None,
{
    let map = entries(settings);
    let font = seq![
        Step::Font(
            match settings.font {
                Some(font) => font,
                None => Font::CourierBold,
            },
        ),
    ];
    let size: Seq<Step> = if settings.font_size != 0 {
        seq![Step::FontSize(settings.font_size)]
    } else {
        Seq::empty()
    };
    lemma_winner_concat(font, size, map, role);
    lemma_winner_short(font, map, role);
    lemma_winner_short(size, map, role);
    lemma_winner_short(seq![Step::VisibleFocus(false)], map, role);
    let accents = accents();
    assert(accents.len() == 6);
    assert(winner(accents, map, role) is None) by {
        reveal_with_fuel(winner, 8);
        let a5 = accents.drop_last();
        let a4 = a5.drop_last();
        let a3 = a4.drop_last();
        let a2 = a3.drop_last();
        let a1 = a2.drop_last();
        assert(a1.drop_last().len() == 0);
        assert(!concerns(accents.last(), map, role));
        assert(!concerns(a5.last(), map, role));
        assert(!concerns(a4.last(), map, role));
        assert(!concerns(a3.last(), map, role));
        assert(!concerns(a2.last(), map, role));
        assert(!concerns(a1.last(), map, role));
    }
}

/// Order of application decides: for every role, the step of the start-up
/// plan that decides its colour is the one that the precedence of the
/// settings calls for.
pub proof fn lemma_plan_decides(settings: &Settings, role: Role)
    ensures
        winner(startup_plan(settings), entries(settings), role) == Some(decided(settings, role)),
{
    let map = entries(settings);
    let a = defaults(settings);
    let b = accents();
    let c = seq![Step::VisibleFocus(false)];
    let d = broad(settings);
    let e = named(settings);
    let f = lettering(settings);
    lemma_winner_concat(a, b, map, role);
    lemma_winner_concat(a + b, c, map, role);
    lemma_winner_concat(a + b + c, d, map, role);
    lemma_winner_concat(a + b + c + d, e, map, role);
    lemma_winner_concat(a + b + c + d + e, f, map, role);
    lemma_winner_defaults(settings, role);
    lemma_winner_fixed(settings, role);
    lemma_winner_broad(settings, role);
    lemma_winner_named(settings, role);
}

/// Precedence of the named colours: a colour that the settings name for a
/// role decides the colour of that role, whatever scheme, colour map and
/// widget theme the settings hold besides.
pub proof fn lemma_named_color_wins(settings: &Settings, role: Role, color: Color)
    requires
        settings.color(role) == Some(color),
    ensures
        winner(startup_plan(settings), entries(settings), role) == Some(Step::Role(role, color)),
        given(settings, role) == Some(color),
{
    lemma_plan_decides(settings, role);
}

/// A role that the settings leave open takes its colour from the colour map:
/// where the settings name no colour for a role and no widget theme, and the
/// colour map has an entry for the slot of the role, the colour map decides
/// the colour of the role, and gives it the colour of its last such entry.
/// The foreground is left out where a second background is named, to which
/// the toolkit adjusts it.
pub proof fn lemma_color_map_fills(settings: &Settings, role: Role, color: Color)
    requires
        settings.color(role) is None,
        settings.theme is None,
        mapped_by(settings, role.slot()) == Some(color),
        role == Role::Foreground ==> settings.background2 is None,
    ensures
        winner(startup_plan(settings), entries(settings), role) == Some(Step::ColorMap),
        given(settings, role) == Some(color),
{
    lemma_plan_decides(settings, role);
}

/// A role that nothing names keeps its default: where the settings name no
/// colour for a role, no scheme and no widget theme, and the colour map, if
/// there is one, has no entry for the slot of the role, the default decides
/// the colour of the role. The foreground is left out where a second
/// background is named, to which the toolkit adjusts it.
pub proof fn lemma_default_stays(settings: &Settings, role: Role)
    requires
        settings.color(role) is None,
        settings.scheme is None,
        settings.theme is None,
        mapped_by(settings, role.slot()) is None,
        role == Role::Foreground ==> settings.background2 is None,
    ensures
        winner(startup_plan(settings), entries(settings), role) == Some(
            Step::Role(role, role.fallback()),
        ),
        given(settings, role) == Some(role.fallback()),
{
    lemma_plan_decides(settings, role);
}

} // verus!
