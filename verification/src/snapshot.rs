//! The clipboard snapshot data model: one observed state of the clipboard,
//! either a piece of text or an RGBA8 image.

use vstd::prelude::*;
use vstd::string::StringExecFns;
use crate::text::{decimal_string, spec_decimal};

verus! {

/// An RGBA8 image as it sits on the clipboard: `bytes` is expected to hold
/// `width * height * 4` bytes, row by row, though the data model itself does
/// not reject mismatched lengths.
pub struct Image {
    pub width: usize,
    pub height: usize,
    pub bytes: Vec<u8>,
}

/// The mathematical value of an [`Image`]: its dimensions and pixel bytes.
#[verifier::ext_equal]
pub struct ImageView {
    pub width: nat,
    pub height: nat,
    pub bytes: Seq<u8>,
}

impl View for Image {
    type V = ImageView;

    open spec fn view(&self) -> ImageView {
        ImageView { width: self.width as nat, height: self.height as nat, bytes: self.bytes@ }
    }
}

impl Image {
    /// Structural equality: same dimensions and the same pixel bytes.
    pub fn structural_eq(&self, other: &Image) -> (r: bool)
        ensures
            r == (self@ == other@),
    {
        if self.width != other.width || self.height != other.height {
            return false;
        }
        if self.bytes.len() != other.bytes.len() {
            return false;
        }
        let n: usize = self.bytes.len();
        let mut i: usize = 0;
        while i < n
            invariant
                n == self.bytes.len() == other.bytes.len(),
                i <= n,
                forall|j: int| 0 <= j < i ==> self.bytes@[j] == other.bytes@[j],
            decreases n - i,
        {
            if self.bytes[i] != other.bytes[i] {
                return false;
            }
            i += 1;
        }
        proof {
            assert(self.bytes@ =~= other.bytes@);
            assert(self@ =~= other@);
        }
        true
    }
}

/// A clipboard snapshot: the tagged union that travels between the peers,
/// either a piece of text or an image.
pub enum CbData {
    Text(String),
    Image(Image),
}

/// The mathematical value of a [`CbData`].
#[verifier::ext_equal]
pub enum SnapView {
    Text(Seq<char>),
    Image(ImageView),
}

impl View for CbData {
    type V = SnapView;

    open spec fn view(&self) -> SnapView {
        match self {
            CbData::Text(s) => SnapView::Text(s@),
            CbData::Image(img) => SnapView::Image(img@),
        }
    }
}

impl CbData {
    /// Structural equality: same variant, and identical text or identical
    /// width, height and pixel bytes.
    pub fn structural_eq(&self, other: &CbData) -> (r: bool)
        ensures
            r == (self@ == other@),
    {
        match (self, other) {
            (CbData::Text(a), CbData::Text(b)) => a.eq(b),
            (CbData::Image(a), CbData::Image(b)) => a.structural_eq(b),
            _ => false,
        }
    }
}

/// The line under which a snapshot is logged: the text itself, or the
/// image's dimensions.
pub open spec fn spec_describe(v: SnapView) -> Seq<char> {
    match v {
        SnapView::Text(s) => s,
        SnapView::Image(iv) => "Image "@ + spec_decimal(iv.width) + "x"@ + spec_decimal(iv.height),
    }
}

impl CbData {
    /// One line describing the snapshot, for logging.
    pub fn describe(&self) -> (r: String)
        ensures
            r@ == spec_describe(self@),
    {
        match self {
            CbData::Text(s) => s.clone(),
            CbData::Image(img) => {
                let mut out = String::from_str("Image ");
                let w = decimal_string(img.width);
                out.append(w.as_str());
                out.append("x");
                let h = decimal_string(img.height);
                out.append(h.as_str());
                proof {
                    assert(out@ =~= spec_describe(self@));
                }
                out
            }
        }
    }
}

/// The value held by an optional snapshot, such as the output loop's
/// record of the last snapshot it sent.
pub open spec fn opt_snap_view(o: Option<CbData>) -> Option<SnapView> {
    match o {
        Option::Some(v) => Option::Some(v@),
        Option::None => Option::None,
    }
}

} // verus!
