//! What the device's screen shows, and where.
use vstd::prelude::*;
use vstd::string::StringExecFns;
use crate::address::{checksum_address, format_address};
use crate::protocol::TxFields;
use crate::text::{decimal, u128_to_decimal};

verus! {

#[verifier::external_type_specification]
#[verifier::external_body]
pub struct ExQrError(qrcode::types::QrError);

/// The modules (dark or not, row by row) of the QR code that `QrCode::new` builds for
/// `data`, or none where it refuses the data (too long for the largest symbol).
pub uninterp spec fn qr_symbol(data: Seq<u8>) -> Option<Seq<bool>>;

/// A QR code as drawn: `width` modules per side and, row by row, whether each is dark.
pub struct QrImage {
    pub width: usize,
    pub dark: Vec<bool>,
}

/// Calls `qrcode::QrCode::new` and hands out the width and the modules of the code, each
/// module as whether it is dark. Trusted: the code is a function of the data alone; it is a
/// normal QR code (versions 1 to 40), so 21 to 177 modules wide, with one module per cell
/// of its square.
#[verifier::external_body]
pub(crate) fn qr_encode(data: &[u8]) -> (r: Result<QrImage, qrcode::types::QrError>)
    ensures
        match qr_symbol(data@) {
            None => r is Err,
            Some(m) => r matches Ok(img) && img.dark@ == m && 21 <= img.width <= 177
                && m.len() == img.width * img.width,
        },
{
    let code = qrcode::QrCode::new(data)?;
    let dark = code.to_colors().into_iter().map(|c| c == qrcode::Color::Dark).collect();
    Ok(QrImage { width: code.width(), dark })
}

/// An object shown on the device's screen.
pub enum DisplayedObject {
    /// A line of text
    Text(String),
    /// A transaction awaiting confirmation
    Tx(TxFields),
    /// A QR code
    QrCode(QrImage),
}

/// The colour a text is drawn in.
#[derive(Debug, Clone, Copy, PartialEq, Eq, Structural)]
pub enum TextStyle {
    /// The colour of values
    Value,
    /// The colour of labels
    Label,
}

/// A text to draw: left-aligned at `(x, y)`, or centred on `x` when `centered`.
#[derive(Debug)]
pub struct ScreenText {
    pub text: String,
    pub x: i32,
    pub y: i32,
    pub style: TextStyle,
    pub centered: bool,
}

/// `t` is the text `s` drawn at `(x, y)` in `style`, centred or not.
pub open spec fn text_at(t: ScreenText, s: Seq<char>, x: int, y: int, style: TextStyle, centered: bool) -> bool {
    t.text@ == s && t.x == x && t.y == y && t.style == style && t.centered == centered
}

/// The texts of the confirmation screen of `tx`, whose header is centred on `center_x`:
/// the chain, the checksummed destination, the value in wei and the maximum fee.
pub open spec fn tx_screen(tx: TxFields, center_x: int, v: Seq<ScreenText>) -> bool {
    &&& v.len() == 8
    &&& text_at(v[0], "CONFIRM TX"@, center_x, 15, TextStyle::Label, true)
    &&& text_at(v[1], "Chain: "@ + decimal(tx.chain_id as nat), 5, 30, TextStyle::Value, false)
    &&& text_at(v[2], "To:"@, 5, 50, TextStyle::Label, false)
    &&& text_at(v[3], checksum_address(tx.to@), 5, 62, TextStyle::Value, false)
    &&& text_at(v[4], "Value (Wei):"@, 5, 82, TextStyle::Label, false)
    &&& text_at(v[5], decimal(tx.value as nat), 5, 94, TextStyle::Value, false)
    &&& text_at(v[6], "Max Fee:"@, 5, 114, TextStyle::Label, false)
    &&& text_at(v[7], decimal(tx.max_fee as nat), 5, 126, TextStyle::Value, false)
}

fn label(s: &str, x: i32, y: i32) -> (t: ScreenText)
    ensures
        text_at(t, s@, x as int, y as int, TextStyle::Label, false),
{
    ScreenText { text: String::from_str(s), x, y, style: TextStyle::Label, centered: false }
}

fn value(text: String, x: i32, y: i32) -> (t: ScreenText)
    ensures
        text_at(t, text@, x as int, y as int, TextStyle::Value, false),
{
    ScreenText { text, x, y, style: TextStyle::Value, centered: false }
}

/// Half of `d`, rounded toward zero as integer division does.
pub open spec fn half_toward_zero(d: int) -> int {
    if d >= 0 { d / 2 } else { -((-d) / 2) }
}

/// Where a QR code is drawn: each module is a square of `scale` pixels, the first one at
/// `(x, y)`.
#[derive(Debug, Clone, Copy, PartialEq, Eq, Structural)]
pub struct QrLayout {
    pub scale: u32,
    pub x: i32,
    pub y: i32,
}

/// The module scale of a QR code `width` modules wide: 3 pixels where three times the
/// width fits the 80-pixel screen, else 2.
pub open spec fn qr_scale(width: int) -> int {
    if width * 3 <= 80 { 3 } else { 2 }
}

impl DisplayedObject {
    /// The texts that show the object on a screen whose horizontal centre is `center_x`: a
    /// line of text centred at height 20, or the confirmation screen of a transaction; a
    /// QR code has none.
    pub fn texts(&self, center_x: i32) -> (v: Vec<ScreenText>)
        ensures
            match *self {
                DisplayedObject::Text(s) => v@.len() == 1 && text_at(v@[0], s@, center_x as int, 20, TextStyle::Value, true),
                DisplayedObject::Tx(tx) => tx_screen(tx, center_x as int, v@),
                DisplayedObject::QrCode(_) => v@.len() == 0,
            },
    {
        let mut v: Vec<ScreenText> = Vec::new();
        match self {
            DisplayedObject::Text(s) => {
                let t = ScreenText { text: String::from_str(s.as_str()), x: center_x, y: 20, style: TextStyle::Value, centered: true };
                v.push(t);
            },
            DisplayedObject::Tx(tx) => {
                v.push(ScreenText { text: String::from_str("CONFIRM TX"), x: center_x, y: 15, style: TextStyle::Label, centered: true });
                v.push(value(String::from_str("Chain: ").concat(u128_to_decimal(tx.chain_id as u128).as_str()), 5, 30));
                v.push(label("To:", 5, 50));
                v.push(value(format_address(tx.to.as_slice()), 5, 62));
                v.push(label("Value (Wei):", 5, 82));
                v.push(value(u128_to_decimal(tx.value), 5, 94));
                v.push(label("Max Fee:", 5, 114));
                v.push(value(u128_to_decimal(tx.max_fee as u128), 5, 126));
            },
            DisplayedObject::QrCode(_) => {},
        }
        v
    }
}

/// Where to draw a QR code `width` modules wide, centred on a screen of the given size.
pub fn qr_layout(width: usize, display_width: u32, display_height: u32) -> (l: QrLayout)
    requires
        width * 3 <= i32::MAX,
        display_width <= i32::MAX,
        display_height <= i32::MAX,
    ensures
        l.scale == qr_scale(width as int),
        l.x == half_toward_zero(display_width - width * qr_scale(width as int)),
        l.y == half_toward_zero(display_height - width * qr_scale(width as int)),
{
    let scale: usize = if width * 3 <= 80 { 3 } else { 2 };
    let px: i64 = (width * scale) as i64;
    let dx: i64 = display_width as i64 - px;
    let dy: i64 = display_height as i64 - px;
    let x: i64 = if dx >= 0 { dx / 2 } else { -((-dx) / 2) };
    let y: i64 = if dy >= 0 { dy / 2 } else { -((-dy) / 2) };
    QrLayout { scale: scale as u32, x: x as i32, y: y as i32 }
}

impl QrLayout {
    /// The top-left pixel of the module in column `col` and row `row`.
    pub fn module_origin(&self, col: usize, row: usize) -> (p: (i32, i32))
        requires
            i32::MIN <= self.x + col * self.scale <= i32::MAX,
            i32::MIN <= self.y + row * self.scale <= i32::MAX,
            col <= i32::MAX,
            row <= i32::MAX,
            col * self.scale <= i32::MAX,
            row * self.scale <= i32::MAX,
        ensures
            p.0 == self.x + col * self.scale,
            p.1 == self.y + row * self.scale,
    {
        assert(col * self.scale >= 0 && row * self.scale >= 0) by (nonlinear_arith);
        let dx: i64 = (col as i64) * (self.scale as i64);
        let dy: i64 = (row as i64) * (self.scale as i64);
        ((self.x as i64 + dx) as i32, (self.y as i64 + dy) as i32)
    }
}

} // verus!
