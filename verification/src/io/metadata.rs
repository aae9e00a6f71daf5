//! Who made a model, and with what.

use crate::io::text_of;
use vstd::prelude::*;

verus! {

/// What a [`Metadata`] is.
pub struct MetadataView {
    /// The name of the model.
    pub name: Option<Seq<char>>,
    /// The version of the program that produced the file.
    pub version: Seq<char>,
    pub rigger: Option<Seq<char>>,
    pub artist: Option<Seq<char>>,
    pub rights: Option<Seq<char>>,
    pub copyright: Option<Seq<char>>,
    pub license_url: Option<Seq<char>>,
    pub contact: Option<Seq<char>>,
    pub reference: Option<Seq<char>>,
    /// The texture to use as a preview, as it was stored: `u32::MAX` stands for
    /// none.
    pub thumbnail_id: Option<u32>,
    pub preserve_pixels: bool,
}

/// Model metadata containing name and author information.
#[derive(Debug)]
pub struct Metadata {
    name: Option<String>,
    version: String,
    rigger: Option<String>,
    artist: Option<String>,
    rights: Option<String>,
    copyright: Option<String>,
    license_url: Option<String>,
    contact: Option<String>,
    reference: Option<String>,
    thumbnail_id: Option<u32>,
    preserve_pixels: bool,
}

impl View for Metadata {
    type V = MetadataView;

    closed spec fn view(&self) -> MetadataView {
        MetadataView {
            name: text_of(self.name),
            version: self.version@,
            rigger: text_of(self.rigger),
            artist: text_of(self.artist),
            rights: text_of(self.rights),
            copyright: text_of(self.copyright),
            license_url: text_of(self.license_url),
            contact: text_of(self.contact),
            reference: text_of(self.reference),
            thumbnail_id: self.thumbnail_id,
            preserve_pixels: self.preserve_pixels,
        }
    }
}

impl Metadata {
    /// Metadata that names only the version of the program that writes the
    /// file.
    pub fn new(version: String) -> (r: Metadata)
        ensures
            r@ == (MetadataView {
                name: None,
                version: version@,
                rigger: None,
                artist: None,
                rights: None,
                copyright: None,
                license_url: None,
                contact: None,
                reference: None,
                thumbnail_id: None,
                preserve_pixels: false,
            }),
    {
        let r = Metadata {
            name: None,
            version,
            rigger: None,
            artist: None,
            rights: None,
            copyright: None,
            license_url: None,
            contact: None,
            reference: None,
            thumbnail_id: None,
            preserve_pixels: false,
        };
        r
    }

    pub fn name(&self) -> (r: Option<&str>)
        ensures
            match r {
                Some(text) => self@.name == Some(text@),
                None => self@.name is None,
            },
    {
        match &self.name {
            Some(text) => Some(text.as_str()),
            None => None,
        }
    }

    pub fn set_name(&mut self, name: Option<String>)
        ensures
            final(self)@ == (MetadataView { name: text_of(name), ..old(self)@ }),
    {
        self.name = name;
    }

    /// Returns the version of the program that created this file (*not* the
    /// version of the model).
    pub fn version(&self) -> (r: &str)
        ensures
            r@ == self@.version,
    {
        self.version.as_str()
    }

    /// Sets the version of the program that created this file (*not* the
    /// version of the model).
    pub fn set_version(&mut self, version: String)
        ensures
            final(self)@ == (MetadataView { version: version@, ..old(self)@ }),
    {
        self.version = version;
    }

    pub fn rigger(&self) -> (r: Option<&str>)
        ensures
            match r {
                Some(text) => self@.rigger == Some(text@),
                None => self@.rigger is None,
            },
    {
        match &self.rigger {
            Some(text) => Some(text.as_str()),
            None => None,
        }
    }

    pub fn set_rigger(&mut self, rigger: Option<String>)
        ensures
            final(self)@ == (MetadataView { rigger: text_of(rigger), ..old(self)@ }),
    {
        self.rigger = rigger;
    }

    pub fn artist(&self) -> (r: Option<&str>)
        ensures
            match r {
                Some(text) => self@.artist == Some(text@),
                None => self@.artist is None,
            },
    {
        match &self.artist {
            Some(text) => Some(text.as_str()),
            None => None,
        }
    }

    pub fn set_artist(&mut self, artist: Option<String>)
        ensures
            final(self)@ == (MetadataView { artist: text_of(artist), ..old(self)@ }),
    {
        self.artist = artist;
    }

    pub fn rights(&self) -> (r: Option<&str>)
        ensures
            match r {
                Some(text) => self@.rights == Some(text@),
                None => self@.rights is None,
            },
    {
        match &self.rights {
            Some(text) => Some(text.as_str()),
            None => None,
        }
    }

    pub fn set_rights(&mut self, rights: Option<String>)
        ensures
            final(self)@ == (MetadataView { rights: text_of(rights), ..old(self)@ }),
    {
        self.rights = rights;
    }

    pub fn copyright(&self) -> (r: Option<&str>)
        ensures
            match r {
                Some(text) => self@.copyright == Some(text@),
                None => self@.copyright is None,
            },
    {
        match &self.copyright {
            Some(text) => Some(text.as_str()),
            None => None,
        }
    }

    pub fn set_copyright(&mut self, copyright: Option<String>)
        ensures
            final(self)@ == (MetadataView { copyright: text_of(copyright), ..old(self)@ }),
    {
        self.copyright = copyright;
    }

    pub fn license_url(&self) -> (r: Option<&str>)
        ensures
            match r {
                Some(text) => self@.license_url == Some(text@),
                None => self@.license_url is None,
            },
    {
        match &self.license_url {
            Some(text) => Some(text.as_str()),
            None => None,
        }
    }

    pub fn set_license_url(&mut self, license_url: Option<String>)
        ensures
            final(self)@ == (MetadataView { license_url: text_of(license_url), ..old(self)@ }),
    {
        self.license_url = license_url;
    }

    pub fn contact(&self) -> (r: Option<&str>)
        ensures
            match r {
                Some(text) => self@.contact == Some(text@),
                None => self@.contact is None,
            },
    {
        match &self.contact {
            Some(text) => Some(text.as_str()),
            None => None,
        }
    }

    pub fn set_contact(&mut self, contact: Option<String>)
        ensures
            final(self)@ == (MetadataView { contact: text_of(contact), ..old(self)@ }),
    {
        self.contact = contact;
    }

    pub fn reference(&self) -> (r: Option<&str>)
        ensures
            match r {
                Some(text) => self@.reference == Some(text@),
                None => self@.reference is None,
            },
    {
        match &self.reference {
            Some(text) => Some(text.as_str()),
            None => None,
        }
    }

    pub fn set_reference(&mut self, reference: Option<String>)
        ensures
            final(self)@ == (MetadataView { reference: text_of(reference), ..old(self)@ }),
    {
        self.reference = reference;
    }

    pub fn set_thumbnail_id(&mut self, thumbnail_id: Option<u32>)
        ensures
            final(self)@ == (MetadataView { thumbnail_id, ..old(self)@ }),
    {
        self.thumbnail_id = thumbnail_id;
    }

    pub fn preserve_pixels(&self) -> (r: bool)
        ensures
            r == self@.preserve_pixels,
    {
        self.preserve_pixels
    }

    pub fn set_preserve_pixels(&mut self, preserve_pixels: bool)
        ensures
            final(self)@ == (MetadataView { preserve_pixels, ..old(self)@ }),
    {
        self.preserve_pixels = preserve_pixels;
    }

    /// The Texture ID as it is stored, where `u32::MAX` stands for none.
    pub fn stored_thumbnail_id(&self) -> (r: Option<u32>)
        ensures
            r == self@.thumbnail_id,
    {
        self.thumbnail_id
    }

    /// Returns the Texture ID to use as a model thumbnail/preview. The stored
    /// ID `u32::MAX` stands for none.
    pub fn thumbnail_id(&self) -> (r: Option<u32>)
        ensures
            r == if self@.thumbnail_id == Some(u32::MAX) {
                None
            } else {
                self@.thumbnail_id
            },
    {
        match self.thumbnail_id {
            Some(id) => if id == u32::MAX {
                None
            } else {
                Some(id)
            },
            None => None,
        }
    }
}

} // verus!
