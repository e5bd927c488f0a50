use vstd::prelude::*;

verus! {

use crate::text::push_char;
use crate::text::remove_last_char;
use crate::text::spec_utf8_len;
use vstd::string::StringExecFns;
use vstd::string::StringSliceAdditionalSpecFns;

/// Whether a character is a control character: the C0 range, delete, or
/// the C1 range.
pub open spec fn spec_is_control(c: char) -> bool {
    (c as int) < 0x20 || (c as int) == 0x7f || (0x80 <= (c as int) && (c as int) <= 0x9f)
}

/// A one-line text entry dialog with a title and a prompt.
#[derive(Debug)]
pub struct NameInputDialog {
    pub is_open: bool,
    pub title: String,
    pub prompt: String,
    pub input: String,
}

impl Default for NameInputDialog {
    fn default() -> (r: Self)
        ensures
            !r.is_open,
            r.title@.len() == 0,
            r.prompt@.len() == 0,
            r.input@.len() == 0,
    {
        NameInputDialog {
            is_open: false,
            title: String::new(),
            prompt: String::new(),
            input: String::new(),
        }
    }
}

impl NameInputDialog {
    /// Opens the dialog under a title and prompt, with an empty entry.
    pub fn open(&mut self, title: &str, prompt: &str)
        ensures
            final(self).is_open,
            final(self).title@ == title@,
            final(self).prompt@ == prompt@,
            final(self).input@.len() == 0,
    {
        self.is_open = true;
        self.title = title.to_owned();
        self.prompt = prompt.to_owned();
        self.input = String::new();
    }

    /// Closes the dialog and discards the entry.
    pub fn close(&mut self)
        ensures
            !final(self).is_open,
            final(self).input@.len() == 0,
            final(self).title == old(self).title,
            final(self).prompt == old(self).prompt,
    {
        self.is_open = false;
        self.input = String::new();
    }

    /// One typed character extends the entry when it is no control
    /// character and the entry is under thirty-two bytes of UTF-8;
    /// anything else is dropped.
    pub fn input_char(&mut self, c: char)
        ensures
            final(self).input@ == (if !spec_is_control(c) && (spec_utf8_len(old(self).input@)
                as usize) < 32 {
                old(self).input@.push(c)
            } else {
                old(self).input@
            }),
            final(self).is_open == old(self).is_open,
            final(self).title == old(self).title,
            final(self).prompt == old(self).prompt,
    {
        let u = c as u32;
        let control = u < 0x20 || u == 0x7f || (0x80 <= u && u <= 0x9f);
        let st = self.input.as_str();
        let byte_len = st.len();
        proof {
            assert(st.spec_bytes() == vstd::utf8::encode_utf8(st@));
            assert(byte_len == spec_utf8_len(self.input@) as usize);
        }
        if !control && byte_len < 32 {
            push_char(&mut self.input, c);
        }
    }

    /// One erased character shortens the entry.
    pub fn backspace(&mut self)
        ensures
            final(self).input@ == (if old(self).input@.len() > 0 {
                old(self).input@.drop_last()
            } else {
                old(self).input@
            }),
            final(self).is_open == old(self).is_open,
            final(self).title == old(self).title,
            final(self).prompt == old(self).prompt,
    {
        self.input = remove_last_char(self.input.as_str());
    }

    /// The entered text.
    pub fn get_input(&self) -> (r: &str)
        ensures
            r@ == self.input@,
    {
        self.input.as_str()
    }
}

} // verus!
