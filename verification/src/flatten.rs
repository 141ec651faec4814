//! Chapter batches and their expansion into individually addressed image
//! jobs.

use vstd::prelude::*;
use crate::paths::join_path;
use crate::paths::path_join;
use crate::text::page_file_name;
use crate::text::page_file_name_spec;

verus! {

/// One chapter's hand-off message: the chapter's target directory plus its
/// ordered image URL list. The order is the page order and determines the
/// output file names.
#[derive(Debug)]
pub struct Messages {
    images_url: Vec<String>,
    pub save_path: String,
}

/// The mathematical content of a [`Messages`] batch.
pub struct MessagesView {
    pub images_url: Seq<Seq<char>>,
    pub save_path: Seq<char>,
}

impl View for Messages {
    type V = MessagesView;

    closed spec fn view(&self) -> MessagesView {
        MessagesView {
            images_url: self.images_url@.map_values(|s: String| s@),
            save_path: self.save_path@,
        }
    }
}

/// One image job: the image's URL and the absolute path its PNG is to be
/// written to.
#[derive(Debug)]
pub struct Message {
    pub image_url: String,
    pub save_path: String,
}

impl Messages {
    /// Packs a target directory and an ordered URL list into one batch.
    pub fn new(save_path: String, images_url: Vec<String>) -> (r: Messages)
        ensures
            r@.save_path == save_path@,
            r@.images_url == images_url@.map_values(|s: String| s@),
    {
        Messages { images_url, save_path }
    }

    /// How many images the batch carries.
    pub fn image_count(&self) -> (n: usize)
        ensures
            n == self@.images_url.len(),
    {
        self.images_url.len()
    }

    /// Expands the batch into one job per image URL, in page order: job `i`
    /// (0-based) carries URL `i` and the path
    /// `save_path/<i+1, zero-padded to five digits>.png`.
    pub fn flatten_message(self) -> (r: Vec<Message>)
        ensures
            r@.len() == self@.images_url.len(),
            forall|i: int|
                0 <= i < r@.len() ==> #[trigger] r@[i].image_url@ == self@.images_url[i]
                    && r@[i].save_path@ == join_path(
                    self@.save_path,
                    page_file_name_spec((i + 1) as nat),
                ),
    {
        let n_imgs = self.images_url.len();
        let mut jobs: Vec<Message> = Vec::new();
        let mut idx: usize = 0;
        while idx < n_imgs
            invariant
                idx <= n_imgs,
                n_imgs == self@.images_url.len(),
                jobs@.len() == idx,
                forall|i: int|
                    0 <= i < idx ==> #[trigger] jobs@[i].image_url@ == self@.images_url[i]
                        && jobs@[i].save_path@ == join_path(
                        self@.save_path,
                        page_file_name_spec((i + 1) as nat),
                    ),
            decreases n_imgs - idx,
        {
            let url = self.images_url[idx].clone();
            let name = page_file_name((idx as u64) + 1);
            let path = path_join(self.save_path.as_str(), name.as_str());
            jobs.push(Message { image_url: url, save_path: path });
            idx = idx + 1;
        }
        jobs
    }
}

} // verus!
