//! What the OLED shows: a pure function of the keyboard state, the charging flag
//! and the size of the panel.
//!
//! Layout (top to bottom):
//! - the icon of the current layer;
//! - a battery icon with the "n%" level below it;
//! - a connection status line.
use vstd::prelude::*;

use crate::label::{decimal, label_text, number_label, text_label};
use crate::status::{BatteryStatus, BleState, ChargeState, RenderContext};

verus! {

/// Height of the connection status band.
pub const CONN_H: i32 = 12;

/// Height of the battery band (icon and "n%" level).
pub const BATT_H: i32 = 24;

/// Width and height of a layer icon.
pub const LAYER_W: i32 = 16;

pub const LAYER_H: i32 = 22;

/// Width and height of the assembled battery icon.
pub const BATTERY_W: i32 = 16;

pub const BATTERY_H: i32 = 9;

/// Gap between the bottom of the battery icon and the level text.
pub const LABEL_GAP: i32 = 2;

/// Half the height of the label font, which centers a label vertically.
pub const LABEL_HALF_H: i32 = 5;

/// Whether the keyboard is charging, inferred from the presence of USB. The central
/// half updates it on connection changes; a peripheral has no host USB, and there
/// it stays as it was made.
#[derive(Clone, Copy, Debug, PartialEq, Eq, Structural)]
pub struct ChargingFlag {
    pub charging: bool,
}

impl ChargingFlag {
    /// The flag before any connection change: not charging.
    pub fn new() -> (flag: ChargingFlag)
        ensures
            !flag.charging,
    {
        ChargingFlag { charging: false }
    }
}

/// Updates the charging state that the battery icon shows.
pub fn set_charging(flag: &mut ChargingFlag, charging: bool)
    ensures
        final(flag).charging == charging,
{
    flag.charging = charging;
}

/// The charging state that was last set.
pub fn is_charging(flag: &ChargingFlag) -> (charging: bool)
    ensures
        charging == flag.charging,
{
    flag.charging
}

/// The artwork, as rows of 1-bit pixels, 16 pixels (two bytes) to a row.
#[derive(Clone, Copy, Debug)]
pub struct Icons {
    /// Layer icons, 22 rows.
    pub layer_0: [u8; 44],
    pub layer_1: [u8; 44],
    pub layer_2: [u8; 44],
    pub layer_3: [u8; 44],
    /// Top border and the walls below it, one row each.
    pub battery_top: [u8; 4],
    /// Middle rows for each charge level, from empty to full: the transition row, then
    /// three center rows.
    pub battery_0: [u8; 8],
    pub battery_1: [u8; 8],
    pub battery_2: [u8; 8],
    pub battery_3: [u8; 8],
    pub battery_4: [u8; 8],
    /// The charging bolt, in the same rows. Its first row is not drawn, since the
    /// transition row of the level stands there.
    pub battery_charging: [u8; 8],
}

/// Size of a display in pixels.
#[derive(Clone, Copy, Debug, PartialEq, Eq, Structural)]
pub struct Size {
    pub width: u32,
    pub height: u32,
}

/// A point on a display.
#[derive(Clone, Copy, Debug, PartialEq, Eq, Structural)]
pub struct Point {
    pub x: i32,
    pub y: i32,
}

/// A length as a signed 32-bit coordinate.
pub open spec fn coordinate(length: u32) -> int {
    if length <= i32::MAX {
        length as int
    } else {
        length - 0x1_0000_0000
    }
}

impl Size {
    /// All coordinates of a frame for a display of this size are 32-bit integers.
    pub open spec fn drawable(self) -> bool {
        &&& coordinate(self.width) >= i32::MIN + LAYER_W
        &&& coordinate(self.height) >= i32::MIN + CONN_H + BATT_H
    }

    /// Tells whether a frame can be laid out on a display of this size.
    pub fn is_drawable(&self) -> (r: bool)
        ensures
            r == self.drawable(),
    {
        signed(self.width) >= i32::MIN + LAYER_W && signed(self.height) >= i32::MIN + CONN_H
            + BATT_H
    }
}

/// The length's bits as a signed coordinate.
fn signed(length: u32) -> (c: i32)
    ensures
        c == coordinate(length),
{
    assert(length <= 0x7FFF_FFFFu32 ==> (length as i32) == length) by (bit_vector);
    assert(length > 0x7FFF_FFFFu32 ==> (length as i32) == length - 0x1_0000_0000) by (bit_vector);
    #[verifier::truncate]
    (length as i32)
}

/// Half of `n`, rounded towards zero.
pub open spec fn half(n: int) -> int {
    if n >= 0 {
        n / 2
    } else {
        -((-n) / 2)
    }
}

/// Height of the area above the two bottom bands.
pub open spec fn top_area_h(size: Size) -> int {
    let left = coordinate(size.height) - CONN_H - BATT_H;
    if left >= 2 {
        left
    } else {
        2
    }
}

/// One drawing operation on a 1-bit display, as a mathematical value.
pub enum DrawOpView {
    Clear,
    Image { data: Seq<u8>, width: int, x: int, y: int },
    Text { text: Seq<char>, x: int, y: int },
}

/// One drawing operation on a 1-bit display.
#[derive(Debug)]
pub enum DrawOp<'a> {
    /// Switch every pixel off.
    Clear,
    /// Draw 1-bit rows of `width` pixels, with the top left corner at (`x`, `y`).
    Image { data: &'a [u8], width: u32, x: i32, y: i32 },
    /// Draw text in the label font, centered on (`x`, `y`) both ways.
    Text { text: &'a heapless::String<8>, x: i32, y: i32 },
}

impl<'a> View for DrawOp<'a> {
    type V = DrawOpView;

    open spec fn view(&self) -> DrawOpView {
        match *self {
            DrawOp::Clear => DrawOpView::Clear,
            DrawOp::Image { data, width, x, y } => DrawOpView::Image {
                data: data@,
                width: width as int,
                x: x as int,
                y: y as int,
            },
            DrawOp::Text { text, x, y } => DrawOpView::Text {
                text: label_text(*text),
                x: x as int,
                y: y as int,
            },
        }
    }
}

/// Text centered on a point.
#[derive(Debug)]
pub struct Label {
    pub text: heapless::String<8>,
    pub at: Point,
}

impl Label {
    pub open spec fn op(&self) -> DrawOpView {
        DrawOpView::Text {
            text: label_text(self.text),
            x: self.at.x as int,
            y: self.at.y as int,
        }
    }
}

/// The battery icon, and its level where it is known.
#[derive(Debug)]
pub struct BatteryDrawing {
    pub bitmap: [u8; 18],
    pub at: Point,
    pub level: Option<Label>,
}

impl BatteryDrawing {
    pub open spec fn ops(&self) -> Seq<DrawOpView> {
        let icon = DrawOpView::Image {
            data: self.bitmap@,
            width: BATTERY_W as int,
            x: self.at.x as int,
            y: self.at.y as int,
        };
        match self.level {
            Some(label) => seq![icon, label.op()],
            None => seq![icon],
        }
    }
}

/// Everything that one redraw puts on the display.
#[derive(Debug)]
pub struct Frame {
    pub layer_icon: [u8; 44],
    pub layer_at: Point,
    pub battery: Option<BatteryDrawing>,
    pub connection: Label,
}

impl Frame {
    /// The drawing operations of the frame, in the order in which they are drawn.
    pub open spec fn ops(&self) -> Seq<DrawOpView> {
        let layer = DrawOpView::Image {
            data: self.layer_icon@,
            width: LAYER_W as int,
            x: self.layer_at.x as int,
            y: self.layer_at.y as int,
        };
        let battery = match self.battery {
            Some(drawing) => drawing.ops(),
            None => seq![],
        };
        seq![DrawOpView::Clear, layer] + battery + seq![self.connection.op()]
    }

    /// The drawing operation with this index, if the frame has that many.
    pub fn op(&self, index: usize) -> (op: Option<DrawOp<'_>>)
        ensures
            op is Some <==> index < self.ops().len(),
            op matches Some(op) ==> op@ == self.ops()[index as int],
    {
        if index == 0 {
            return Some(DrawOp::Clear);
        }
        if index == 1 {
            return Some(
                DrawOp::Image {
                    data: self.layer_icon.as_slice(),
                    width: LAYER_W as u32,
                    x: self.layer_at.x,
                    y: self.layer_at.y,
                },
            );
        }
        let mut next: usize = 2;
        if let Some(battery) = &self.battery {
            if index == 2 {
                return Some(
                    DrawOp::Image {
                        data: battery.bitmap.as_slice(),
                        width: BATTERY_W as u32,
                        x: battery.at.x,
                        y: battery.at.y,
                    },
                );
            }
            next = 3;
            if let Some(level) = &battery.level {
                if index == 3 {
                    return Some(DrawOp::Text { text: &level.text, x: level.at.x, y: level.at.y });
                }
                next = 4;
            }
        }
        if index == next {
            let label = &self.connection;
            return Some(DrawOp::Text { text: &label.text, x: label.at.x, y: label.at.y });
        }
        None
    }
}

/// The icon of a layer; a layer without one of its own has that of layer 0.
pub open spec fn layer_icon(icons: Icons, layer: u8) -> Seq<u8> {
    if layer == 3 {
        icons.layer_3@
    } else if layer == 2 {
        icons.layer_2@
    } else if layer == 1 {
        icons.layer_1@
    } else {
        icons.layer_0@
    }
}

/// How full the battery icon is, from 0 (empty) to 4 (full), at a charge percentage.
pub open spec fn charge_step(percent: int) -> int {
    if percent <= 10 {
        0
    } else if percent <= 25 {
        1
    } else if percent <= 50 {
        2
    } else if percent <= 75 {
        3
    } else {
        4
    }
}

/// The fragment of a charge level, where an unknown level counts as full.
pub open spec fn level_fragment(icons: Icons, level: Option<u8>) -> Seq<u8> {
    let percent = match level {
        Some(p) => p as int,
        None => 100,
    };
    if charge_step(percent) == 0 {
        icons.battery_0@
    } else if charge_step(percent) == 1 {
        icons.battery_1@
    } else if charge_step(percent) == 2 {
        icons.battery_2@
    } else if charge_step(percent) == 3 {
        icons.battery_3@
    } else {
        icons.battery_4@
    }
}

/// The four middle rows of the battery icon: the transition row of the level's fragment,
/// then the three center rows, which are those of the fragment, or the bolt while charging.
pub open spec fn battery_fragment(icons: Icons, charging: bool, level: Option<u8>) -> Seq<u8> {
    if charging {
        level_fragment(icons, level).subrange(0, 2) + icons.battery_charging@.subrange(2, 8)
    } else {
        level_fragment(icons, level)
    }
}

/// The battery icon: the two top rows, the transition row and the three center rows of
/// the middle, then the first three rows in reverse order.
pub open spec fn battery_bitmap(top: Seq<u8>, mid: Seq<u8>) -> Seq<u8> {
    top + mid + mid.subrange(0, 2) + top.subrange(2, 4) + top.subrange(0, 2)
}

/// The drawing operations for the battery with the icon's top left corner at (`x`, `y`):
/// nothing without a battery, and no level text for an unknown level.
pub open spec fn battery_ops(
    icons: Icons,
    battery: BatteryStatus,
    charging: bool,
    x: int,
    y: int,
) -> Seq<DrawOpView> {
    match battery {
        BatteryStatus::Unavailable => seq![],
        BatteryStatus::Available { level, .. } => {
            let icon = DrawOpView::Image {
                data: battery_bitmap(
                    icons.battery_top@,
                    battery_fragment(icons, charging, level),
                ),
                width: BATTERY_W as int,
                x,
                y,
            };
            match level {
                Some(percent) => seq![
                    icon,
                    DrawOpView::Text {
                        text: decimal(percent as nat) + "%"@,
                        x: x + BATTERY_W / 2,
                        y: y + BATTERY_H + LABEL_GAP + LABEL_HALF_H,
                    },
                ],
                None => seq![icon],
            }
        },
    }
}

/// The connection status line: "CON" on a peripheral whose split link is up;
/// otherwise "USB" while charging; otherwise "BLE" and the number of the profile,
/// counted from one, while BLE is advertising or connected; otherwise blank.
pub open spec fn connection_text(ctx: RenderContext, charging: bool) -> Seq<char> {
    if ctx.central_connected {
        "CON"@
    } else if charging {
        "USB"@
    } else if ctx.ble_status.state is Advertising || ctx.ble_status.state is Connected {
        "BLE"@ + decimal((ctx.ble_status.profile + 1) as nat)
    } else {
        seq![]
    }
}

/// The drawing operations of the frame for `ctx` on a display of size `size`, in order.
pub open spec fn frame_ops(
    icons: Icons,
    ctx: RenderContext,
    charging: bool,
    size: Size,
) -> Seq<DrawOpView> {
    let w = coordinate(size.width);
    let h = coordinate(size.height);
    let top = top_area_h(size);
    let layer = DrawOpView::Image {
        data: layer_icon(icons, ctx.layer),
        width: LAYER_W as int,
        x: half(w - LAYER_W),
        y: half(top - LAYER_H),
    };
    let connection = DrawOpView::Text {
        text: connection_text(ctx, charging),
        x: half(w),
        y: h - CONN_H / 2,
    };
    seq![DrawOpView::Clear, layer] + battery_ops(
        icons,
        ctx.battery.0,
        charging,
        half(w - BATTERY_W),
        top + 1,
    ) + seq![connection]
}

/// Renderer for the OLED of either keyboard half.
#[derive(Debug)]
pub struct DOIORenderer {
    pub icons: Icons,
}

impl DOIORenderer {
    /// A renderer that draws with this artwork.
    pub fn new(icons: Icons) -> (renderer: DOIORenderer)
        ensures
            renderer.icons == icons,
    {
        DOIORenderer { icons }
    }

    /// The frame for `ctx` on a display of size `size`.
    pub fn render(&self, ctx: &RenderContext, flag: &ChargingFlag, size: Size) -> (frame: Frame)
        requires
            size.drawable(),
        ensures
            frame.ops() == frame_ops(self.icons, *ctx, flag.charging, size),
    {
        let w: i32 = signed(size.width);
        let h: i32 = signed(size.height);
        let left: i32 = h - CONN_H - BATT_H;
        let top_area: i32 = if left >= 2 {
            left
        } else {
            2
        };

        let layer: [u8; 44] = match ctx.layer {
            3 => self.icons.layer_3,
            2 => self.icons.layer_2,
            1 => self.icons.layer_1,
            _ => self.icons.layer_0,
        };
        let layer_at = Point { x: (w - LAYER_W) / 2, y: (top_area - LAYER_H) / 2 };

        let battery_at = Point { x: (w - BATTERY_W) / 2, y: top_area + 1 };
        let battery = self.draw_battery_status(ctx, flag, battery_at);

        let text = connection_label(ctx, flag);
        let connection = Label { text, at: Point { x: w / 2, y: h - CONN_H / 2 } };
        let frame = Frame { layer_icon: layer, layer_at, battery, connection };
        assert(frame.ops() =~= frame_ops(self.icons, *ctx, flag.charging, size));
        frame
    }

    /// The battery icon at `top_left`, with the charge level centered just below it. From
    /// top to bottom the icon is the two top rows, the transition row of the level's
    /// fragment, and the center rows, which are the bolt while charging; the bottom mirrors
    /// the top.
    pub fn draw_battery_status(
        &self,
        ctx: &RenderContext,
        flag: &ChargingFlag,
        top_left: Point,
    ) -> (drawing: Option<BatteryDrawing>)
        requires
            ctx.battery.0 matches BatteryStatus::Available { level: Some(_), .. } ==> {
                &&& top_left.x + BATTERY_W / 2 <= i32::MAX
                &&& top_left.y + BATTERY_H + LABEL_GAP + LABEL_HALF_H <= i32::MAX
            },
        ensures
            drawing is None <==> ctx.battery.0 is Unavailable,
            (match drawing {
                Some(drawing) => drawing.ops(),
                None => seq![],
            }) == battery_ops(
                self.icons,
                ctx.battery.0,
                flag.charging,
                top_left.x as int,
                top_left.y as int,
            ),
    {
        let percent: Option<u8> = match ctx.battery.0 {
            BatteryStatus::Available { level, .. } => level,
            BatteryStatus::Unavailable => {
                return None;
            },
        };
        let shown: u8 = match percent {
            Some(p) => p,
            None => 100,
        };
        let mid: [u8; 8] = if shown <= 10 {
            self.icons.battery_0
        } else if shown <= 25 {
            self.icons.battery_1
        } else if shown <= 50 {
            self.icons.battery_2
        } else if shown <= 75 {
            self.icons.battery_3
        } else {
            self.icons.battery_4
        };
        let center: [u8; 8] = if is_charging(flag) {
            self.icons.battery_charging
        } else {
            mid
        };
        let top: [u8; 4] = self.icons.battery_top;
        let bitmap: [u8; 18] = [
            top[0], top[1], top[2], top[3],
            mid[0], mid[1],
            center[2], center[3],
            center[4], center[5],
            center[6], center[7],
            mid[0], mid[1],
            top[2], top[3], top[0], top[1],
        ];
        assert(bitmap@ =~= battery_bitmap(
            top@,
            battery_fragment(self.icons, flag.charging, percent),
        ));

        let level = match percent {
            Some(p) => Some(percent_label(p, top_left)),
            None => None,
        };
        let drawing = BatteryDrawing { bitmap, at: top_left, level };
        assert(drawing.ops() =~= battery_ops(
            self.icons,
            ctx.battery.0,
            flag.charging,
            top_left.x as int,
            top_left.y as int,
        ));
        Some(drawing)
    }
}

/// The "n%" text below a battery icon at `top_left`.
fn percent_label(percent: u8, top_left: Point) -> (label: Label)
    requires
        top_left.x + BATTERY_W / 2 <= i32::MAX,
        top_left.y + BATTERY_H + LABEL_GAP + LABEL_HALF_H <= i32::MAX,
    ensures
        label_text(label.text) == decimal(percent as nat) + "%"@,
        label.at.x == top_left.x + BATTERY_W / 2,
        label.at.y == top_left.y + BATTERY_H + LABEL_GAP + LABEL_HALF_H,
{
    proof {
        reveal_strlit("");
        reveal_strlit("%");
    }
    let text = number_label("", percent as u16, "%");
    assert(label_text(text) =~= decimal(percent as nat) + "%"@);
    let at = Point {
        x: top_left.x + BATTERY_W / 2,
        y: top_left.y + BATTERY_H + LABEL_GAP + LABEL_HALF_H,
    };
    Label { text, at }
}

/// The text of the connection status line.
fn connection_label(ctx: &RenderContext, flag: &ChargingFlag) -> (label: heapless::String<8>)
    ensures
        label_text(label) == connection_text(*ctx, flag.charging),
{
    proof {
        reveal_strlit("");
        reveal_strlit("CON");
        reveal_strlit("USB");
        reveal_strlit("BLE");
    }
    if ctx.central_connected {
        text_label("CON")
    } else if is_charging(flag) {
        text_label("USB")
    } else {
        match ctx.ble_status.state {
            BleState::Advertising | BleState::Connected => {
                let label = number_label("BLE", ctx.ble_status.profile as u16 + 1, "");
                assert(label_text(label) =~= connection_text(*ctx, flag.charging));
                label
            },
            BleState::Inactive => {
                let label = text_label("");
                assert(label_text(label) =~= connection_text(*ctx, flag.charging));
                label
            },
        }
    }
}

/// The byte pair of one row of a 16 pixel wide bitmap.
pub open spec fn bitmap_row(bitmap: Seq<u8>, row: int) -> Seq<u8> {
    bitmap.subrange(2 * row, 2 * row + 2)
}

/// The battery icon has nine rows. It is symmetric but for the three rows in its center:
/// its last three rows are its first three in reverse order.
pub proof fn battery_icon_is_symmetric(top: Seq<u8>, mid: Seq<u8>, row: int)
    requires
        top.len() == 4,
        mid.len() == 8,
        0 <= row < 3,
    ensures
        battery_bitmap(top, mid).len() == 2 * BATTERY_H,
        bitmap_row(battery_bitmap(top, mid), BATTERY_H - 1 - row) == bitmap_row(
            battery_bitmap(top, mid),
            row,
        ),
        bitmap_row(battery_bitmap(top, mid), 0) == bitmap_row(top, 0),
        bitmap_row(battery_bitmap(top, mid), 1) == bitmap_row(top, 1),
        battery_bitmap(top, mid).subrange(4, 12) == mid,
{
    let bitmap = battery_bitmap(top, mid);
    assert(bitmap_row(bitmap, BATTERY_H - 1 - row) =~= bitmap_row(bitmap, row));
    assert(bitmap_row(bitmap, 0) =~= bitmap_row(top, 0));
    assert(bitmap_row(bitmap, 1) =~= bitmap_row(top, 1));
    assert(bitmap.subrange(4, 12) =~= mid);
}

/// Nothing of a battery that is not available is drawn, neither icon nor level.
pub proof fn unavailable_battery_is_not_drawn(
    icons: Icons,
    ctx: RenderContext,
    charging: bool,
    size: Size,
)
    requires
        ctx.battery.0 is Unavailable,
    ensures
        frame_ops(icons, ctx, charging, size).len() == 3,
        frame_ops(icons, ctx, charging, size)[1] matches DrawOpView::Image { data, .. } && data
            == layer_icon(icons, ctx.layer),
        frame_ops(icons, ctx, charging, size)[2] matches DrawOpView::Text { text, .. } && text
            == connection_text(ctx, charging),
{
}

/// A battery whose level is unknown is drawn as a full one, without the level text.
pub proof fn unknown_level_is_drawn_as_full(
    icons: Icons,
    charging: bool,
    charge_state: ChargeState,
    x: int,
    y: int,
)
    ensures
        battery_ops(
            icons,
            BatteryStatus::Available { charge_state, level: None },
            charging,
            x,
            y,
        ) == battery_ops(
            icons,
            BatteryStatus::Available { charge_state, level: Some(100) },
            charging,
            x,
            y,
        ).take(1),
{
    let full = battery_ops(
        icons,
        BatteryStatus::Available { charge_state, level: Some(100) },
        charging,
        x,
        y,
    );
    assert(full.take(1) =~= battery_ops(
        icons,
        BatteryStatus::Available { charge_state, level: None },
        charging,
        x,
        y,
    ));
}

/// A battery that holds more never looks emptier, and one at 100% looks full.
pub proof fn fuller_battery_looks_no_emptier(percent: int, higher: int)
    requires
        0 <= percent <= higher,
    ensures
        0 <= charge_step(percent) <= charge_step(higher) <= 4,
        charge_step(100) == 4,
{
}

/// While charging, the bolt takes the place of the center rows at every level, and only of
/// those: the transition row, and its mirror below the center, stay those of the level.
pub proof fn charging_shows_the_bolt(icons: Icons, level: Option<u8>)
    ensures
        battery_fragment(icons, true, level).len() == 8,
        battery_fragment(icons, true, level).subrange(2, 8) == icons.battery_charging@.subrange(
            2,
            8,
        ),
        battery_fragment(icons, true, level).subrange(0, 2) == level_fragment(
            icons,
            level,
        ).subrange(0, 2),
        ({
            let bitmap = battery_bitmap(
                icons.battery_top@,
                battery_fragment(icons, true, level),
            );
            &&& bitmap_row(bitmap, 2) == level_fragment(icons, level).subrange(0, 2)
            &&& bitmap_row(bitmap, 6) == level_fragment(icons, level).subrange(0, 2)
            &&& bitmap.subrange(6, 12) == icons.battery_charging@.subrange(2, 8)
        }),
{
    let mid = battery_fragment(icons, true, level);
    let bitmap = battery_bitmap(icons.battery_top@, mid);
    let transition = level_fragment(icons, level).subrange(0, 2);
    let bolt = icons.battery_charging@.subrange(2, 8);
    assert(mid.subrange(2, 8) =~= bolt);
    assert(mid.subrange(0, 2) =~= transition);
    assert(bitmap_row(bitmap, 2) =~= transition);
    assert(bitmap_row(bitmap, 6) =~= transition);
    assert(bitmap.subrange(6, 12) =~= bolt);
}

/// A frame leaves nothing of the one before it: it clears the display first, and once.
/// It draws the layer icon next and the connection status line last.
pub proof fn frame_starts_from_a_clear_display(
    icons: Icons,
    ctx: RenderContext,
    charging: bool,
    size: Size,
)
    ensures
        ({
            let ops = frame_ops(icons, ctx, charging, size);
            &&& 3 <= ops.len() <= 5
            &&& forall|i: int| 0 <= i < ops.len() ==> ((#[trigger] ops[i]) is Clear <==> i == 0)
            &&& ops[1] is Image
            &&& ops.last() is Text
        }),
{
}

/// Where the display is high enough for its bands, they do not overlap: the battery icon
/// lies below the top area, its level below the icon, and the connection status line
/// below both, in the last rows. The layer icon lies in the top area where that is as
/// high as the icon. Icons are centered, and on the display where that is as wide.
pub proof fn frame_is_stacked_in_bands(
    icons: Icons,
    ctx: RenderContext,
    charging: bool,
    size: Size,
)
    requires
        size.width <= i32::MAX,
        CONN_H + BATT_H + 2 <= size.height <= i32::MAX,
    ensures
        ({
            let ops = frame_ops(icons, ctx, charging, size);
            let top = top_area_h(size);
            &&& top + BATT_H + CONN_H == size.height
            &&& ops[1] matches DrawOpView::Image { x, y, .. } && {
                &&& -1 <= size.width - LAYER_W - 2 * x <= 1
                &&& size.width >= LAYER_W ==> 0 <= x && x + LAYER_W <= size.width
                &&& top >= LAYER_H ==> 0 <= y && y + LAYER_H <= top
            }
            &&& ops.len() > 3 ==> (ops[2] matches DrawOpView::Image { x, y, .. } && {
                &&& -1 <= size.width - BATTERY_W - 2 * x <= 1
                &&& size.width >= BATTERY_W ==> 0 <= x && x + BATTERY_W <= size.width
                &&& top <= y && y + BATTERY_H <= size.height - CONN_H
            })
            &&& ops.len() > 4 ==> (ops[2] matches DrawOpView::Image { x: icon_x, y: icon_y, .. }
                && ops[3] matches DrawOpView::Text { x, y, .. } && {
                &&& x == icon_x + BATTERY_W / 2
                &&& icon_y + BATTERY_H <= y - LABEL_HALF_H
                &&& y + LABEL_HALF_H <= size.height - CONN_H
            })
            &&& ops.last() matches DrawOpView::Text { x, y, .. } && {
                &&& -1 <= size.width - 2 * x <= 1
                &&& size.height - CONN_H <= y - LABEL_HALF_H
                &&& y + LABEL_HALF_H <= size.height
            }
        }),
{
}

/// A length keeps its 32 bits as a coordinate, which is the length itself where that is not
/// beyond the largest coordinate. Frames can be laid out on every display whose lengths are
/// not.
pub proof fn coordinate_keeps_the_bits(size: Size)
    ensures
        i32::MIN <= coordinate(size.width) <= i32::MAX,
        (size.width - coordinate(size.width)) % 0x1_0000_0000 == 0,
        size.width <= i32::MAX ==> coordinate(size.width) == size.width,
        size.width <= i32::MAX && size.height <= i32::MAX ==> size.drawable(),
        size.drawable() <==> coordinate(size.width) - 16 >= i32::MIN && coordinate(size.height) - 36
            >= i32::MIN,
{
}

/// `x` is half of `n`, where a half that is left over is dropped towards zero.
pub open spec fn is_half(n: int, x: int) -> bool {
    if n >= 0 {
        0 <= n - 2 * x <= 1
    } else {
        -1 <= n - 2 * x <= 0
    }
}

/// Where everything is placed, on a display of any size `w` by `h`. The layer icon and the
/// battery icon, both 16 pixels wide, are centered across. The layer icon, 22 rows high, is
/// centered in the top area, which is all but the last 36 rows, or two rows if that is more.
/// The battery icon starts one row below the top area. The level is centered on the icon, 16
/// rows below its top, and the connection status line is centered across, six rows above the
/// bottom.
pub proof fn frame_positions(
    icons: Icons,
    ctx: RenderContext,
    charging: bool,
    size: Size,
    top: int,
)
    requires
        top >= 2,
        top >= coordinate(size.height) - 36,
        top == 2 || top == coordinate(size.height) - 36,
    ensures
        ({
            let ops = frame_ops(icons, ctx, charging, size);
            let w = coordinate(size.width);
            let h = coordinate(size.height);
            &&& ops[1] matches DrawOpView::Image { width, x, y, .. } && {
                &&& width == 16
                &&& is_half(w - 16, x)
                &&& is_half(top - 22, y)
            }
            &&& ops.len() >= 4 ==> (ops[2] matches DrawOpView::Image { width, x, y, .. } && {
                &&& width == 16
                &&& is_half(w - 16, x)
                &&& y == top + 1
            })
            &&& ops.len() == 5 ==> (ops[2] matches DrawOpView::Image { x: icon_x, y: icon_y, .. }
                && ops[3] matches DrawOpView::Text { x, y, .. } && {
                &&& x == icon_x + 8
                &&& y == icon_y + 16
            })
            &&& ops.last() matches DrawOpView::Text { x, y, .. } && {
                &&& is_half(w, x)
                &&& y == h - 6
            }
        }),
{
}

/// The layer icon is that of the layer for layers 1 to 3, and that of layer 0 for all others.
/// It depends on nothing else.
pub proof fn frame_shows_the_layer(icons: Icons, ctx: RenderContext, charging: bool, size: Size)
    ensures
        frame_ops(icons, ctx, charging, size)[1] matches DrawOpView::Image { data, .. } && {
            &&& ctx.layer == 1 ==> data == icons.layer_1@
            &&& ctx.layer == 2 ==> data == icons.layer_2@
            &&& ctx.layer == 3 ==> data == icons.layer_3@
            &&& ctx.layer == 0 || ctx.layer > 3 ==> data == icons.layer_0@
        },
{
}

/// What is drawn of a battery: nothing if it is not available, the icon alone if its level is
/// unknown, and otherwise the icon and, below it, the digits of the level and a percent sign.
/// The icon has nine rows of two bytes.
pub proof fn battery_is_drawn_with_its_level(
    icons: Icons,
    battery: BatteryStatus,
    charging: bool,
    x: int,
    y: int,
)
    ensures
        ({
            let ops = battery_ops(icons, battery, charging, x, y);
            &&& battery is Unavailable ==> ops.len() == 0
            &&& battery matches BatteryStatus::Available { level: None, .. } ==> ops.len() == 1
            &&& battery matches BatteryStatus::Available { level: Some(p), .. } ==> {
                &&& ops.len() == 2
                &&& ops[1] matches DrawOpView::Text { text, x: tx, y: ty } && {
                    &&& text == decimal(p as nat) + "%"@
                    &&& tx == x + 8
                    &&& ty == y + 16
                }
            }
            &&& battery is Available ==> (ops[0] matches DrawOpView::Image {
                data,
                width,
                x: ix,
                y: iy,
            } && {
                &&& data.len() == 18
                &&& width == 16
                &&& ix == x
                &&& iy == y
            })
        }),
{
}

/// In a frame, what is drawn of the battery stands between the layer icon and the connection
/// status line.
pub proof fn frame_holds_the_battery(
    icons: Icons,
    ctx: RenderContext,
    charging: bool,
    size: Size,
    x: int,
    y: int,
)
    requires
        is_half(coordinate(size.width) - 16, x),
        y == if coordinate(size.height) >= 38 {
            coordinate(size.height) - 35
        } else {
            3
        },
    ensures
        ({
            let ops = frame_ops(icons, ctx, charging, size);
            let battery = battery_ops(icons, ctx.battery.0, charging, x, y);
            &&& ops.len() == 3 + battery.len()
            &&& ops.subrange(2, ops.len() - 1) == battery
        }),
{
    let ops = frame_ops(icons, ctx, charging, size);
    let battery = battery_ops(icons, ctx.battery.0, charging, x, y);
    assert(half(coordinate(size.width) - BATTERY_W) == x);
    assert(ops.subrange(2, ops.len() - 1) =~= battery);
}

/// While not charging, the four middle rows of the battery icon are the fragment of the level:
/// the first up to 10%, the second up to 25%, the third up to 50%, the fourth up to 75%, and
/// the last above that and for an unknown level. The rows around them are the top rows, with
/// the first middle row mirrored at the bottom.
pub proof fn resting_icon_shows_the_level(
    icons: Icons,
    charge_state: ChargeState,
    level: Option<u8>,
    x: int,
    y: int,
)
    ensures
        battery_ops(
            icons,
            BatteryStatus::Available { charge_state, level },
            false,
            x,
            y,
        )[0] matches DrawOpView::Image { data, .. } && {
            let middle = data.subrange(4, 12);
            &&& (level matches Some(p) && p <= 10) ==> middle == icons.battery_0@
            &&& (level matches Some(p) && 11 <= p <= 25) ==> middle == icons.battery_1@
            &&& (level matches Some(p) && 26 <= p <= 50) ==> middle == icons.battery_2@
            &&& (level matches Some(p) && 51 <= p <= 75) ==> middle == icons.battery_3@
            &&& (level matches Some(p) && p >= 76) ==> middle == icons.battery_4@
            &&& level is None ==> middle == icons.battery_4@
            &&& data.subrange(0, 4) == icons.battery_top@
            &&& data.subrange(12, 14) == data.subrange(4, 6)
            &&& data.subrange(14, 16) == icons.battery_top@.subrange(2, 4)
            &&& data.subrange(16, 18) == icons.battery_top@.subrange(0, 2)
        },
{
    let mid = level_fragment(icons, level);
    let data = battery_bitmap(icons.battery_top@, mid);
    assert(data.subrange(4, 12) =~= mid);
    assert(data.subrange(0, 4) =~= icons.battery_top@);
    assert(data.subrange(12, 14) =~= data.subrange(4, 6));
    assert(data.subrange(14, 16) =~= icons.battery_top@.subrange(2, 4));
    assert(data.subrange(16, 18) =~= icons.battery_top@.subrange(0, 2));
}

/// Charging changes the battery icon in its three center rows alone, which become the bolt's.
/// Nothing else that is drawn of the battery changes, whatever the level.
pub proof fn charging_changes_the_center_rows_only(
    icons: Icons,
    battery: BatteryStatus,
    x: int,
    y: int,
)
    ensures
        ({
            let resting = battery_ops(icons, battery, false, x, y);
            let charging = battery_ops(icons, battery, true, x, y);
            &&& charging.len() == resting.len()
            &&& battery is Available ==> (resting[0] matches DrawOpView::Image { data: before, .. }
                && charging[0] matches DrawOpView::Image { data: after, .. } && {
                &&& after.len() == before.len()
                &&& after.subrange(0, 6) == before.subrange(0, 6)
                &&& after.subrange(6, 12) == icons.battery_charging@.subrange(2, 8)
                &&& after.subrange(12, 18) == before.subrange(12, 18)
            })
            &&& charging.len() == 2 ==> charging[1] == resting[1]
        }),
{
    if let BatteryStatus::Available { level, .. } = battery {
        let before = battery_bitmap(icons.battery_top@, battery_fragment(icons, false, level));
        let after = battery_bitmap(icons.battery_top@, battery_fragment(icons, true, level));
        assert(after.subrange(0, 6) =~= before.subrange(0, 6));
        assert(after.subrange(6, 12) =~= icons.battery_charging@.subrange(2, 8));
        assert(after.subrange(12, 18) =~= before.subrange(12, 18));
    }
}

/// The connection status line. With the split link up it is "CON", whatever else holds.
/// Without the link it is "USB" while charging. Without both, it is "BLE" and the digits of
/// the profile's number, counted from one, both while BLE is advertising and while it is
/// connected, and it is blank exactly while BLE is inactive.
pub proof fn connection_line_by_priority(ctx: RenderContext, charging: bool)
    ensures
        ctx.central_connected ==> connection_text(ctx, charging) == "CON"@,
        !ctx.central_connected && charging ==> connection_text(ctx, charging) == "USB"@,
        !ctx.central_connected && !charging && ctx.ble_status.state is Advertising
            ==> connection_text(ctx, charging) == "BLE"@ + decimal(
            (ctx.ble_status.profile + 1) as nat,
        ),
        !ctx.central_connected && !charging && ctx.ble_status.state is Connected
            ==> connection_text(ctx, charging) == "BLE"@ + decimal(
            (ctx.ble_status.profile + 1) as nat,
        ),
        connection_text(ctx, charging).len() == 0 <==> !ctx.central_connected && !charging
            && ctx.ble_status.state is Inactive,
{
    reveal_strlit("CON");
    reveal_strlit("USB");
    reveal_strlit("BLE");
}

/// The last operation of a frame is its connection status line.
pub proof fn frame_ends_with_the_connection_line(
    icons: Icons,
    ctx: RenderContext,
    charging: bool,
    size: Size,
)
    ensures
        frame_ops(icons, ctx, charging, size).last() matches DrawOpView::Text { text, .. } && text
            == connection_text(ctx, charging),
{
}

/// The operations of a frame are its parts, in this order: the clear display, the layer icon,
/// the battery icon and its level where it has them, and the connection status line.
pub proof fn frame_operations_are_its_parts(frame: Frame)
    ensures
        frame.ops()[0] is Clear,
        frame.ops()[1] == (DrawOpView::Image {
            data: frame.layer_icon@,
            width: 16,
            x: frame.layer_at.x as int,
            y: frame.layer_at.y as int,
        }),
        frame.ops().last() == (DrawOpView::Text {
            text: label_text(frame.connection.text),
            x: frame.connection.at.x as int,
            y: frame.connection.at.y as int,
        }),
        frame.battery is None ==> frame.ops().len() == 3,
        frame.battery matches Some(battery) ==> {
            &&& frame.ops()[2] == (DrawOpView::Image {
                data: battery.bitmap@,
                width: 16,
                x: battery.at.x as int,
                y: battery.at.y as int,
            })
            &&& battery.level is None ==> frame.ops().len() == 4
            &&& battery.level matches Some(label) ==> {
                &&& frame.ops().len() == 5
                &&& frame.ops()[3] == (DrawOpView::Text {
                    text: label_text(label.text),
                    x: label.at.x as int,
                    y: label.at.y as int,
                })
            }
        },
{
}

/// An operation as a value has all that the operation itself has.
pub proof fn operation_keeps_its_parts(op: DrawOp)
    ensures
        op is Clear <==> op@ is Clear,
        op matches DrawOp::Image { data, width, x, y } ==> op@ == (DrawOpView::Image {
            data: data@,
            width: width as int,
            x: x as int,
            y: y as int,
        }),
        op matches DrawOp::Text { text, x, y } ==> op@ == (DrawOpView::Text {
            text: label_text(*text),
            x: x as int,
            y: y as int,
        }),
{
}

/// A frame does not depend on the charge state of the battery reading: the bolt is that of the
/// charging flag.
pub proof fn frame_takes_charging_from_the_flag(
    icons: Icons,
    ctx: RenderContext,
    other: RenderContext,
    charging: bool,
    size: Size,
)
    requires
        other.layer == ctx.layer,
        other.ble_status == ctx.ble_status,
        other.central_connected == ctx.central_connected,
        ctx.battery.0 is Available,
        other.battery.0 is Available,
        other.battery.0->level == ctx.battery.0->level,
    ensures
        frame_ops(icons, other, charging, size) == frame_ops(icons, ctx, charging, size),
{
}

} // verus!
