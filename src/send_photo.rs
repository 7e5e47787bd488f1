use crate::api::ParseMode;
use vstd::prelude::*;

verus! {

/// Request body of the send-photo call.
#[derive(Debug, Clone)]
pub struct SendPhotoRequest {
    /// Unique identifier for the target chat.
    pub chat_id: i64,
    /// A file id of a photo already on the server, or an HTTP URL to fetch it from.
    pub photo: String,
    /// Photo caption, 0-1024 characters after entities parsing.
    pub caption: String,
    /// Mode for parsing entities in the caption.
    pub parse_mode: Option<ParseMode>,
}

impl SendPhotoRequest {
    /// A request for a photo that the server already holds under `file_id`.
    pub fn new_file_id(chat_id: i64, file_id: String) -> (r: Self)
        ensures
            r.chat_id == chat_id,
            r.photo@ == file_id@,
            r.caption@ == Seq::<char>::empty(),
            r.parse_mode.is_none(),
    {
        SendPhotoRequest { chat_id, photo: file_id, caption: String::new(), parse_mode: None }
    }

    /// A request for a photo that the server fetches from `url`.
    pub fn new_external_url(chat_id: i64, url: String) -> (r: Self)
        ensures
            r.chat_id == chat_id,
            r.photo@ == url@,
            r.caption@ == Seq::<char>::empty(),
            r.parse_mode.is_none(),
    {
        SendPhotoRequest { chat_id, photo: url, caption: String::new(), parse_mode: None }
    }

    /// The same request with its caption set to `text`.
    pub fn with_caption(self, text: String) -> (r: Self)
        ensures
            r.chat_id == self.chat_id,
            r.photo == self.photo,
            r.caption@ == text@,
            r.parse_mode == self.parse_mode,
    {
        SendPhotoRequest { caption: text, ..self }
    }

    /// The same request with its parse mode set to `parse_mode`.
    pub fn with_parse_mode(self, parse_mode: ParseMode) -> (r: Self)
        ensures
            r.chat_id == self.chat_id,
            r.photo == self.photo,
            r.caption == self.caption,
            r.parse_mode == Some(parse_mode),
    {
        SendPhotoRequest { parse_mode: Some(parse_mode), ..self }
    }
}

} // verus!
