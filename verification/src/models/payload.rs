//! Where the raw content of a message lives, and in which format.

use vstd::prelude::*;

verus! {

/// Whether the content travels with the message or is stored elsewhere.
#[derive(Debug, Clone, Copy, PartialEq, Eq, Structural)]
pub enum StorageType {
    Inline,
    File,
}

/// The wire format of the content.
#[derive(Debug, Clone, Copy, PartialEq, Eq, Structural)]
pub enum PayloadFormat {
    Xml,
    Json,
}

/// The message standard the content claims to follow.
#[derive(Debug, Clone, Copy, PartialEq, Eq, Structural)]
pub enum PayloadSchema {
    ISO20022,
}

/// The character encoding of the content.
#[derive(Debug, Clone, Copy, PartialEq, Eq, Structural)]
pub enum Encoding {
    Utf8,
    Utf16,
    Utf32,
    Ascii,
    Latin1,
}

impl StorageType {
    /// The tag that stands for this storage type on the wire.
    pub open spec fn tag(self) -> Seq<char> {
        match self {
            StorageType::Inline => "inline"@,
            StorageType::File => "file"@,
        }
    }

    /// The storage type that a wire tag stands for, if it is one.
    pub open spec fn of_tag(tag: Seq<char>) -> Option<Self> {
        if tag == "inline"@ {
            Some(StorageType::Inline)
        } else if tag == "file"@ {
            Some(StorageType::File)
        } else {
            None
        }
    }

    /// The tag that stands for this storage type on the wire.
    pub fn wire_tag(&self) -> (tag: &'static str)
        ensures
            tag@ == self.tag(),
    {
        match self {
            StorageType::Inline => "inline",
            StorageType::File => "file",
        }
    }

    /// Reads a wire tag.
    pub fn from_wire_tag(tag: &str) -> (read: Option<Self>)
        ensures
            read == Self::of_tag(tag@),
    {
        if *tag == *"inline" {
            Some(StorageType::Inline)
        } else if *tag == *"file" {
            Some(StorageType::File)
        } else {
            None
        }
    }

    /// Reading the tag of a storage type gives the storage type back.
    pub proof fn lemma_tag_round_trip(self)
        ensures
            Self::of_tag(self.tag()) == Some(self),
    {
        reveal_strlit("inline");
        reveal_strlit("file");
        assert("inline"@.len() != "file"@.len());
    }
}

impl PayloadFormat {
    /// The tag that stands for this format on the wire.
    pub open spec fn tag(self) -> Seq<char> {
        match self {
            PayloadFormat::Xml => "xml"@,
            PayloadFormat::Json => "json"@,
        }
    }

    /// The format that a wire tag stands for, if it is one.
    pub open spec fn of_tag(tag: Seq<char>) -> Option<Self> {
        if tag == "xml"@ {
            Some(PayloadFormat::Xml)
        } else if tag == "json"@ {
            Some(PayloadFormat::Json)
        } else {
            None
        }
    }

    /// The tag that stands for this format on the wire.
    pub fn wire_tag(&self) -> (tag: &'static str)
        ensures
            tag@ == self.tag(),
    {
        match self {
            PayloadFormat::Xml => "xml",
            PayloadFormat::Json => "json",
        }
    }

    /// Reads a wire tag.
    pub fn from_wire_tag(tag: &str) -> (read: Option<Self>)
        ensures
            read == Self::of_tag(tag@),
    {
        if *tag == *"xml" {
            Some(PayloadFormat::Xml)
        } else if *tag == *"json" {
            Some(PayloadFormat::Json)
        } else {
            None
        }
    }

    /// Reading the tag of a format gives the format back.
    pub proof fn lemma_tag_round_trip(self)
        ensures
            Self::of_tag(self.tag()) == Some(self),
    {
        reveal_strlit("xml");
        reveal_strlit("json");
        assert("xml"@.len() != "json"@.len());
    }
}

impl PayloadSchema {
    /// The tag that stands for this schema on the wire.
    pub open spec fn tag(self) -> Seq<char> {
        match self {
            PayloadSchema::ISO20022 => "iso20022"@,
        }
    }

    /// The schema that a wire tag stands for, if it is one.
    pub open spec fn of_tag(tag: Seq<char>) -> Option<Self> {
        if tag == "iso20022"@ {
            Some(PayloadSchema::ISO20022)
        } else {
            None
        }
    }

    /// The tag that stands for this schema on the wire.
    pub fn wire_tag(&self) -> (tag: &'static str)
        ensures
            tag@ == self.tag(),
    {
        match self {
            PayloadSchema::ISO20022 => "iso20022",
        }
    }

    /// Reads a wire tag.
    pub fn from_wire_tag(tag: &str) -> (read: Option<Self>)
        ensures
            read == Self::of_tag(tag@),
    {
        if *tag == *"iso20022" {
            Some(PayloadSchema::ISO20022)
        } else {
            None
        }
    }

    /// Reading the tag of a schema gives the schema back.
    pub proof fn lemma_tag_round_trip(self)
        ensures
            Self::of_tag(self.tag()) == Some(self),
    {
    }
}

impl Encoding {
    /// The token that stands for this encoding on the wire.
    pub open spec fn tag(self) -> Seq<char> {
        match self {
            Encoding::Utf8 => "UTF-8"@,
            Encoding::Utf16 => "UTF-16"@,
            Encoding::Utf32 => "UTF-32"@,
            Encoding::Ascii => "ASCII"@,
            Encoding::Latin1 => "ISO-8859-1"@,
        }
    }

    /// The encoding that a wire token stands for, if it is one.
    pub open spec fn of_tag(tag: Seq<char>) -> Option<Self> {
        if tag == "UTF-8"@ {
            Some(Encoding::Utf8)
        } else if tag == "UTF-16"@ {
            Some(Encoding::Utf16)
        } else if tag == "UTF-32"@ {
            Some(Encoding::Utf32)
        } else if tag == "ASCII"@ {
            Some(Encoding::Ascii)
        } else if tag == "ISO-8859-1"@ {
            Some(Encoding::Latin1)
        } else {
            None
        }
    }

    /// The token that stands for this encoding on the wire.
    pub fn wire_tag(&self) -> (tag: &'static str)
        ensures
            tag@ == self.tag(),
    {
        match self {
            Encoding::Utf8 => "UTF-8",
            Encoding::Utf16 => "UTF-16",
            Encoding::Utf32 => "UTF-32",
            Encoding::Ascii => "ASCII",
            Encoding::Latin1 => "ISO-8859-1",
        }
    }

    /// Reads a wire token.
    pub fn from_wire_tag(tag: &str) -> (read: Option<Self>)
        ensures
            read == Self::of_tag(tag@),
    {
        if *tag == *"UTF-8" {
            Some(Encoding::Utf8)
        } else if *tag == *"UTF-16" {
            Some(Encoding::Utf16)
        } else if *tag == *"UTF-32" {
            Some(Encoding::Utf32)
        } else if *tag == *"ASCII" {
            Some(Encoding::Ascii)
        } else if *tag == *"ISO-8859-1" {
            Some(Encoding::Latin1)
        } else {
            None
        }
    }

    /// Reading the token of an encoding gives the encoding back.
    pub proof fn lemma_tag_round_trip(self)
        ensures
            Self::of_tag(self.tag()) == Some(self),
    {
        reveal_strlit("UTF-8");
        reveal_strlit("UTF-16");
        reveal_strlit("UTF-32");
        reveal_strlit("ASCII");
        reveal_strlit("ISO-8859-1");
        assert("UTF-8"@.len() == 5 && "UTF-16"@.len() == 6 && "UTF-32"@.len() == 6);
        assert("ASCII"@[0] == 'A' && "UTF-8"@[0] == 'U' && "ISO-8859-1"@.len() == 10);
        assert("UTF-16"@[4] == '1' && "UTF-32"@[4] == '3');
    }
}

/// Describes the raw content of a message.
///
/// Nothing ties `content` and `url` to `storage`: a payload whose fields
/// disagree with its storage type can be built, and what downstream
/// components do with it is decided by the fields that are present.
#[derive(Debug, Clone, PartialEq)]
pub struct Payload {
    pub storage: StorageType,
    pub content: Option<Vec<u8>>,
    pub url: Option<String>,
    pub format: PayloadFormat,
    pub schema: PayloadSchema,
    pub encoding: Encoding,
    /// Advisory byte length; never compared with the actual content.
    pub size: i64,
}

impl Payload {
    /// A payload that carries its content inline.
    pub fn new_inline(
        content: Option<Vec<u8>>,
        format: PayloadFormat,
        schema: PayloadSchema,
        encoding: Encoding,
    ) -> (payload: Self)
        ensures
            payload == (Payload {
                storage: StorageType::Inline,
                content,
                url: None,
                format,
                schema,
                encoding,
                size: 0,
            }),
    {
        Payload { storage: StorageType::Inline, content, url: None, format, schema, encoding, size: 0 }
    }

    /// A payload whose content is stored at `url`.
    pub fn new_file(
        url: Option<String>,
        format: PayloadFormat,
        schema: PayloadSchema,
        encoding: Encoding,
        size: i64,
    ) -> (payload: Self)
        ensures
            payload == (Payload {
                storage: StorageType::File,
                content: None,
                url,
                format,
                schema,
                encoding,
                size,
            }),
    {
        Payload { storage: StorageType::File, content: None, url, format, schema, encoding, size }
    }
}

} // verus!
