use vstd::prelude::*;

use crate::error::Error;
use crate::xclbin::Xclbin;

verus! {

/// One image the platform can load by path, together with its raw content.
pub struct ImageEntry {
    pub path: String,
    pub content: Vec<u8>,
}

/// The content of the most recently installed image under `path`, if any.
pub open spec fn spec_find_image(images: Seq<ImageEntry>, path: Seq<char>) -> Option<Seq<u8>>
    decreases images.len(),
{
    if images.len() == 0 {
        None
    } else if images.last().path@ == path {
        Some(images.last().content@)
    } else {
        spec_find_image(images.drop_last(), path)
    }
}

/// A session on one physical accelerator.  The session handle is optional:
/// absent after `close`, and every operation that needs the session checks
/// its presence first.  The device also carries the set of images the
/// platform can load by path, and the image currently loaded, if any.
pub struct XRTDevice {
    pub handle: Option<u64>,
    pub images: Vec<ImageEntry>,
    pub xclbin: Option<Xclbin>,
}

impl XRTDevice {
    /// Opens a session on the card with the given physical index.  Every
    /// enumerated index opens in this model, so a freshly opened device
    /// always has a present session handle.
    pub fn open(index: u32) -> (r: XRTDevice)
        ensures
            r.handle == Some(index as u64),
            r.images@.len() == 0,
            r.xclbin is None,
    {
        XRTDevice { handle: Some(index as u64), images: Vec::new(), xclbin: None }
    }

    /// Closes the session.  Closing an already-closed device is a no-op that
    /// leaves the device unchanged.
    pub fn close(&mut self)
        ensures
            final(self).handle is None,
            final(self).images == old(self).images,
            final(self).xclbin == old(self).xclbin,
            old(self).handle is None ==> *final(self) == *old(self),
    {
        self.handle = None;
    }

    /// Makes an image loadable by path.  Installing a second image under the
    /// same path shadows the earlier one.
    pub fn install_image(&mut self, path: String, content: Vec<u8>)
        ensures
            final(self).handle == old(self).handle,
            final(self).xclbin == old(self).xclbin,
            final(self).images@ == old(self).images@.push(
                ImageEntry { path: path, content: content },
            ),
            spec_find_image(final(self).images@, path@) == Some(content@),
            forall|other: Seq<char>|
                other != path@ ==> spec_find_image(final(self).images@, other) == spec_find_image(
                    old(self).images@,
                    other,
                ),
    {
        let entry = ImageEntry { path, content };
        self.images.push(entry);
        proof {
            assert(self.images@.drop_last() =~= old(self).images@);
        }
    }

    /// Loads the image installed under `xclbin_path` into the open session.
    /// Fails with `UnopenedDeviceError` if the session is closed, with
    /// `XclbinFileAllocError` if no image is installed under that path, and
    /// otherwise surfaces what the image reader found: on success the decoded
    /// image replaces any previously loaded one, and on a decoding failure
    /// the previously loaded image is kept.
    pub fn load_xclbin(&mut self, xclbin_path: &str) -> (r: Result<(), Error>)
        ensures
            final(self).handle == old(self).handle,
            final(self).images@ == old(self).images@,
            old(self).handle is None ==> (r == Err::<(), Error>(Error::UnopenedDeviceError)
                && final(self).xclbin == old(self).xclbin),
            old(self).handle is Some && spec_find_image(old(self).images@, xclbin_path@) is None
                ==> (r == Err::<(), Error>(Error::XclbinFileAllocError) && final(self).xclbin
                == old(self).xclbin),
            old(self).handle is Some ==> (spec_find_image(old(self).images@, xclbin_path@)
                matches Some(content) ==> match r {
                Ok(_) => final(self).xclbin matches Some(x) && crate::xclbin::parse_result_matches(
                    content,
                    Ok(x),
                ),
                Err(e) => final(self).xclbin == old(self).xclbin
                    && crate::xclbin::parse_result_matches(content, Err(e)),
            }),
    {
        if self.handle.is_none() {
            return Err(Error::UnopenedDeviceError);
        }
        let content = match self.find_image(xclbin_path) {
            None => {
                return Err(Error::XclbinFileAllocError);
            },
            Some(c) => c,
        };
        match crate::xclbin::parse_xclbin(content) {
            Ok(x) => {
                self.xclbin = Some(x);
                Ok(())
            },
            Err(e) => Err(e),
        }
    }

    /// The content installed under `path`, if any.
    pub fn find_image(&self, path: &str) -> (r: Option<&Vec<u8>>)
        ensures
            match r {
                Some(content) => spec_find_image(self.images@, path@) == Some(content@),
                None => spec_find_image(self.images@, path@) is None,
            },
    {
        let wanted: String = path.to_owned();
        let mut i: usize = self.images.len();
        proof {
            assert(self.images@.subrange(0, self.images@.len() as int) =~= self.images@);
        }
        while i > 0
            invariant
                i <= self.images@.len(),
                wanted@ == path@,
                spec_find_image(self.images@.subrange(0, i as int), path@) == spec_find_image(
                    self.images@,
                    path@,
                ),
            decreases i,
        {
            i = i - 1;
            proof {
                assert(self.images@.subrange(0, i + 1).drop_last() =~= self.images@.subrange(
                    0,
                    i as int,
                ));
            }
            if self.images[i].path == wanted {
                return Some(&self.images[i].content);
            }
        }
        proof {
            assert(self.images@.subrange(0, 0) =~= Seq::<ImageEntry>::empty());
        }
        None
    }
}

} // verus!
