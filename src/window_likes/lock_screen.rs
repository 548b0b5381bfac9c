use vstd::prelude::*;
use vstd::utf8::encode_utf8;

use blake2::{Blake2b512, Digest};

use crate::framebuffer::{DEFAULT_FONT, Dimensions};
use crate::keyboard::{BACKSPACE_KEY, ENTER_KEY};
use crate::messages::{WindowManagerRequest, WindowMessage, WindowMessageResponse};
use crate::themes::ThemeInfo;
use crate::window_manager::{DrawInstructions, WindowLike, WindowLikeType};

verus! {

/// The BLAKE2b-512 digest of the password that unlocks the system.
pub const PASSWORD_HASH: [u8; 64] = [
    220, 88, 183, 188, 240, 27, 107, 181, 58, 191, 198, 170, 114, 38, 7, 148, 6, 179, 75, 128,
    231, 171, 172, 220, 85, 38, 36, 113, 116, 146, 70, 197, 163, 179, 158, 192, 130, 53, 247, 48,
    47, 209, 95, 96, 179, 211, 4, 122, 254, 127, 21, 165, 139, 199, 151, 226, 216, 176, 123, 41,
    194, 221, 58, 69,
];

/// The BLAKE2b-512 digest of `bytes`.
pub uninterp spec fn blake2b512_of(bytes: Seq<u8>) -> Seq<u8>;

/// Relies on blake2's `Blake2b512` through `Digest::digest`: the BLAKE2b-512
/// digest of the UTF-8 text made of `chars`.
#[verifier::external_body]
fn password_digest(chars: &Vec<char>) -> (r: Vec<u8>)
    ensures
        r@ == blake2b512_of(encode_utf8(chars@)),
{
    let text: String = chars.iter().collect();
    Blake2b512::digest(text.as_bytes()).to_vec()
}

/// Whether the password typed so far, `typed`, is the right one.
pub open spec fn password_matches(typed: Seq<char>) -> bool {
    blake2b512_of(encode_utf8(typed)) == PASSWORD_HASH@
}

/// The full-screen surface shown while the system is locked. It collects the
/// typed password and asks to unlock when its digest is the stored one.
pub struct LockScreen {
    pub dimensions: Dimensions,
    pub input_password: Vec<char>,
}

impl WindowLike for LockScreen {
    open spec fn kind(&self) -> WindowLikeType {
        WindowLikeType::LockScreen
    }

    /// `Init` sets the size; a typed key goes to `key_step`; anything else
    /// is ignored.
    open spec fn handles(&self, message: WindowMessage, next: Self, r: WindowMessageResponse) -> bool {
        match message {
            WindowMessage::Init(d) => next == (LockScreen { dimensions: d, ..*self }) && r is JustRerender,
            WindowMessage::KeyPress(kp) => self.key_step(kp.key, next, r),
            _ => next == *self && r is DoNothing,
        }
    }

    open spec fn size(&self) -> Dimensions {
        self.dimensions
    }

    open spec fn ideal(&self, screen: Dimensions) -> Dimensions {
        screen
    }

    fn handle_message(&mut self, message: WindowMessage) -> (r: WindowMessageResponse) {
        match message {
            WindowMessage::Init(dimensions) => {
                self.dimensions = dimensions;
                WindowMessageResponse::JustRerender
            },
            WindowMessage::KeyPress(key_press) => self.handle_key(key_press.key),
            _ => WindowMessageResponse::DoNothing,
        }
    }

    open spec fn spec_title(&self) -> &'static str {
        ""
    }

    fn title(&self) -> (r: &'static str) {
        ""
    }

    fn resizable(&self) -> bool {
        false
    }

    fn subtype(&self) -> (r: WindowLikeType) {
        WindowLikeType::LockScreen
    }

    open spec fn draws(&self, theme: ThemeInfo, out: Seq<DrawInstructions>) -> bool {
        &&& out.len() == 6
        &&& out[0] == DrawInstructions::Rect([0usize, 0usize], self.dimensions, [0u8, 0u8, 0u8])
        &&& out[5] matches DrawInstructions::Text(_, _, stars, _, _) && stars@.len() == self.input_password@.len()
    }

    fn draw(&self, _theme_info: &ThemeInfo) -> (r: Vec<DrawInstructions>) {
        let white: [u8; 3] = [255, 255, 255];
        let black: [u8; 3] = [0, 0, 0];
        let mut stars = String::new();
        let mut i: usize = 0;
        while i < self.input_password.len()
            invariant
                i <= self.input_password@.len(),
                stars@.len() == i,
            decreases self.input_password@.len() - i,
        {
            proof {
                reveal_strlit("*");
            }
            stars = stars.concat("*");
            i = i + 1;
        }
        vec![
            DrawInstructions::Rect([0, 0], self.dimensions, black),
            DrawInstructions::Text(
                [4, 4],
                DEFAULT_FONT,
                "The bulldozer outside the kitchen window was quite a big one.".to_string(),
                white,
                black,
            ),
            DrawInstructions::Text(
                [4, 20],
                DEFAULT_FONT,
                "\"Yellow,\" he thought, and stomped off back to his bedroom to get dressed.".to_string(),
                white,
                black,
            ),
            DrawInstructions::Text([4, 36], DEFAULT_FONT, "He stared at it.".to_string(), white, black),
            DrawInstructions::Text([4, 52], DEFAULT_FONT, "Password: ".to_string(), white, black),
            DrawInstructions::Text([77, 52], DEFAULT_FONT, stars, white, black),
        ]
    }

    fn ideal_dimensions(&self, dimensions: Dimensions) -> (r: Dimensions) {
        dimensions
    }
}

impl LockScreen {
    /// A lock screen with nothing typed yet.
    pub fn new() -> (r: Self)
        ensures
            r.input_password@ == Seq::<char>::empty(),
            r.dimensions == [0usize, 0usize],
    {
        LockScreen { dimensions: [0, 0], input_password: Vec::new() }
    }

    /// What typing `key` does: leads to `next`, answering `r`.
    pub open spec fn key_step(&self, key: char, next: Self, r: WindowMessageResponse) -> bool {
        &&& next.dimensions == self.dimensions
        &&& key == ENTER_KEY && password_matches(self.input_password@) ==> {
            &&& r matches WindowMessageResponse::Request(WindowManagerRequest::Unlock)
            &&& next.input_password@ == self.input_password@
        }
        &&& key == ENTER_KEY && !password_matches(self.input_password@) ==> {
            &&& r is JustRerender
            &&& next.input_password@ == Seq::<char>::empty()
        }
        &&& key == BACKSPACE_KEY ==> {
            &&& r is JustRerender
            &&& next.input_password@ == if self.input_password@.len() == 0 {
                self.input_password@
            } else {
                self.input_password@.drop_last()
            }
        }
        &&& key != ENTER_KEY && key != BACKSPACE_KEY ==> {
            &&& r is JustRerender
            &&& next.input_password@ == self.input_password@.push(key)
        }
    }

    /// Handles one typed key: enter checks the password, backspace drops the
    /// last character, and any other key is appended.
    pub fn handle_key(&mut self, key: char) -> (r: WindowMessageResponse)
        ensures
            old(self).key_step(key, *final(self), r),
    {
        if key == ENTER_KEY {
            let digest = self.typed_digest();
            self.submit_digest(&digest)
        } else if key == BACKSPACE_KEY {
            if self.input_password.len() != 0 {
                self.input_password.pop();
            }
            WindowMessageResponse::JustRerender
        } else {
            self.input_password.push(key);
            WindowMessageResponse::JustRerender
        }
    }

    /// The digest of the password typed so far.
    pub fn typed_digest(&self) -> (r: Vec<u8>)
        ensures
            r@ == blake2b512_of(encode_utf8(self.input_password@)),
    {
        password_digest(&self.input_password)
    }

    /// Acts on the digest of the typed password: the stored digest asks to
    /// unlock; any other clears what was typed.
    pub fn submit_digest(&mut self, digest: &Vec<u8>) -> (r: WindowMessageResponse)
        ensures
            final(self).dimensions == old(self).dimensions,
            digest@ == PASSWORD_HASH@ ==> {
                &&& r matches WindowMessageResponse::Request(WindowManagerRequest::Unlock)
                &&& final(self).input_password@ == old(self).input_password@
            },
            digest@ != PASSWORD_HASH@ ==> {
                &&& r is JustRerender
                &&& final(self).input_password@ == Seq::<char>::empty()
            },
    {
        if digest_is_password(digest) {
            WindowMessageResponse::Request(WindowManagerRequest::Unlock)
        } else {
            self.input_password = Vec::new();
            WindowMessageResponse::JustRerender
        }
    }
}

/// Whether `digest` is the stored password digest.
fn digest_is_password(digest: &Vec<u8>) -> (r: bool)
    ensures
        r == (digest@ == PASSWORD_HASH@),
{
    let hash = PASSWORD_HASH;
    if digest.len() != 64 {
        assert(PASSWORD_HASH@.len() == 64);
        return false;
    }
    let mut i: usize = 0;
    while i < 64
        invariant
            i <= 64,
            digest@.len() == 64,
            hash@ == PASSWORD_HASH@,
            forall|j: int| 0 <= j < i ==> digest@[j] == hash@[j],
        decreases 64 - i,
    {
        if digest[i] != hash[i] {
            return false;
        }
        i = i + 1;
    }
    assert(digest@ =~= PASSWORD_HASH@);
    true
}

} // verus!
