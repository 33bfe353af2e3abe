//! The catalogue of the request headers that are tracked.

use crate::header::lemma_visible_chars;
use crate::header::HeaderValue;
use vstd::prelude::*;
use vstd::utf8::encode_utf8;

verus! {

/// How many request headers the catalogue holds.
pub const NUM_HX_REQUEST_HEADERS: usize = 10;

/// The request headers whose use makes a response vary.
#[derive(Clone, Copy, Debug, PartialEq, Eq, Hash, Structural)]
pub enum HxRequestHeader {
    Boosted,
    CurrentUrl,
    HistoryRestoreRequest,
    Prompt,
    Request,
    RequestType,
    Source,
    Target,
    TriggerName,
    Trigger,
}

/// The catalogue in the order of its declaration, which is the order of the
/// `Vary` entries.
pub open spec fn catalogue() -> Seq<HxRequestHeader> {
    seq![
        HxRequestHeader::Boosted,
        HxRequestHeader::CurrentUrl,
        HxRequestHeader::HistoryRestoreRequest,
        HxRequestHeader::Prompt,
        HxRequestHeader::Request,
        HxRequestHeader::RequestType,
        HxRequestHeader::Source,
        HxRequestHeader::Target,
        HxRequestHeader::TriggerName,
        HxRequestHeader::Trigger,
    ]
}

impl HxRequestHeader {
    /// The place of this header in the catalogue, which is also the place of
    /// its bit in a ledger's mask.
    pub open spec fn position(self) -> u16 {
        match self {
            HxRequestHeader::Boosted => 0,
            HxRequestHeader::CurrentUrl => 1,
            HxRequestHeader::HistoryRestoreRequest => 2,
            HxRequestHeader::Prompt => 3,
            HxRequestHeader::Request => 4,
            HxRequestHeader::RequestType => 5,
            HxRequestHeader::Source => 6,
            HxRequestHeader::Target => 7,
            HxRequestHeader::TriggerName => 8,
            HxRequestHeader::Trigger => 9,
        }
    }

    /// The name of this header on the wire, in lower case.
    pub open spec fn wire_name(self) -> Seq<char> {
        match self {
            HxRequestHeader::Boosted => "hx-boosted"@,
            HxRequestHeader::CurrentUrl => "hx-current-url"@,
            HxRequestHeader::HistoryRestoreRequest => "hx-history-restore-request"@,
            HxRequestHeader::Prompt => "hx-prompt"@,
            HxRequestHeader::Request => "hx-request"@,
            HxRequestHeader::RequestType => "hx-request-type"@,
            HxRequestHeader::Source => "hx-source"@,
            HxRequestHeader::Target => "hx-target"@,
            HxRequestHeader::TriggerName => "hx-trigger-name"@,
            HxRequestHeader::Trigger => "hx-trigger"@,
        }
    }

    /// The name under which this header is listed in `Vary`.
    pub open spec fn vary_name(self) -> Seq<char> {
        match self {
            HxRequestHeader::Boosted => "HX-Boosted"@,
            HxRequestHeader::CurrentUrl => "HX-Current-URL"@,
            HxRequestHeader::HistoryRestoreRequest => "HX-History-Restore-Request"@,
            HxRequestHeader::Prompt => "HX-Prompt"@,
            HxRequestHeader::Request => "HX-Request"@,
            HxRequestHeader::RequestType => "HX-Request-Type"@,
            HxRequestHeader::Source => "HX-Source"@,
            HxRequestHeader::Target => "HX-Target"@,
            HxRequestHeader::TriggerName => "HX-Trigger-Name"@,
            HxRequestHeader::Trigger => "HX-Trigger"@,
        }
    }

    /// The name of this header on the wire, in lower case.
    pub fn header_name(&self) -> (name: &'static str)
        ensures
            name@ == self.wire_name(),
    {
        match self {
            HxRequestHeader::Boosted => "hx-boosted",
            HxRequestHeader::CurrentUrl => "hx-current-url",
            HxRequestHeader::HistoryRestoreRequest => "hx-history-restore-request",
            HxRequestHeader::Prompt => "hx-prompt",
            HxRequestHeader::Request => "hx-request",
            HxRequestHeader::RequestType => "hx-request-type",
            HxRequestHeader::Source => "hx-source",
            HxRequestHeader::Target => "hx-target",
            HxRequestHeader::TriggerName => "hx-trigger-name",
            HxRequestHeader::Trigger => "hx-trigger",
        }
    }

    /// The `Vary` entry of this header.
    pub fn vary_value(&self) -> (value: HeaderValue)
        ensures
            value@ == encode_utf8(self.vary_name()),
    {
        let name = self.as_str();
        proof {
            reveal_strlit("HX-Boosted");
            reveal_strlit("HX-Current-URL");
            reveal_strlit("HX-History-Restore-Request");
            reveal_strlit("HX-Prompt");
            reveal_strlit("HX-Request");
            reveal_strlit("HX-Request-Type");
            reveal_strlit("HX-Source");
            reveal_strlit("HX-Target");
            reveal_strlit("HX-Trigger-Name");
            reveal_strlit("HX-Trigger");
            lemma_visible_chars(name@);
        }
        HeaderValue::from_static(name)
    }

    /// The header at place `i` of the catalogue, if the catalogue is that
    /// long.
    pub fn at(i: usize) -> (header: Option<HxRequestHeader>)
        ensures
            header is Some <==> i < NUM_HX_REQUEST_HEADERS,
            header matches Some(h) ==> h == catalogue()[i as int] && h.position() == i,
    {
        if i == 0 {
            Some(HxRequestHeader::Boosted)
        } else if i == 1 {
            Some(HxRequestHeader::CurrentUrl)
        } else if i == 2 {
            Some(HxRequestHeader::HistoryRestoreRequest)
        } else if i == 3 {
            Some(HxRequestHeader::Prompt)
        } else if i == 4 {
            Some(HxRequestHeader::Request)
        } else if i == 5 {
            Some(HxRequestHeader::RequestType)
        } else if i == 6 {
            Some(HxRequestHeader::Source)
        } else if i == 7 {
            Some(HxRequestHeader::Target)
        } else if i == 8 {
            Some(HxRequestHeader::TriggerName)
        } else if i == 9 {
            Some(HxRequestHeader::Trigger)
        } else {
            None
        }
    }

    /// The place of this header in the catalogue.
    pub fn index(&self) -> (i: u16)
        ensures
            i == self.position(),
            i < NUM_HX_REQUEST_HEADERS,
            catalogue()[i as int] == *self,
    {
        match self {
            HxRequestHeader::Boosted => 0,
            HxRequestHeader::CurrentUrl => 1,
            HxRequestHeader::HistoryRestoreRequest => 2,
            HxRequestHeader::Prompt => 3,
            HxRequestHeader::Request => 4,
            HxRequestHeader::RequestType => 5,
            HxRequestHeader::Source => 6,
            HxRequestHeader::Target => 7,
            HxRequestHeader::TriggerName => 8,
            HxRequestHeader::Trigger => 9,
        }
    }

    /// The name under which this header is listed in `Vary`.
    pub fn as_str(&self) -> (name: &'static str)
        ensures
            name@ == self.vary_name(),
    {
        match self {
            HxRequestHeader::Boosted => "HX-Boosted",
            HxRequestHeader::CurrentUrl => "HX-Current-URL",
            HxRequestHeader::HistoryRestoreRequest => "HX-History-Restore-Request",
            HxRequestHeader::Prompt => "HX-Prompt",
            HxRequestHeader::Request => "HX-Request",
            HxRequestHeader::RequestType => "HX-Request-Type",
            HxRequestHeader::Source => "HX-Source",
            HxRequestHeader::Target => "HX-Target",
            HxRequestHeader::TriggerName => "HX-Trigger-Name",
            HxRequestHeader::Trigger => "HX-Trigger",
        }
    }
}

/// Whether the bit at place `i` of `mask` is set.
pub open spec fn bit_is_set(mask: u16, i: u16) -> bool {
    mask & (1u16 << i) != 0
}

proof fn lemma_set_bit(mask: u16, i: u16, j: u16)
    by (bit_vector)
    requires
        i < 16,
        j < 16,
    ensures
        bit_is_set(mask | (1u16 << i), j) == (bit_is_set(mask, j) || i == j),
{
}

proof fn lemma_clear_bit(mask: u16, i: u16, j: u16)
    by (bit_vector)
    requires
        i < 16,
        j < 16,
    ensures
        bit_is_set(mask & !(1u16 << i), j) == (bit_is_set(mask, j) && i != j),
{
}

proof fn lemma_all_bits(j: u16)
    by (bit_vector)
    requires
        j < 10,
    ensures
        bit_is_set(1023u16, j),
{
}

proof fn lemma_no_bit(j: u16)
    by (bit_vector)
    requires
        j < 16,
    ensures
        !bit_is_set(0u16, j),
{
}

proof fn lemma_some_bit(mask: u16)
    by (bit_vector)
    requires
        mask != 0,
        mask < 1024,
    ensures
        bit_is_set(mask, 0) || bit_is_set(mask, 1) || bit_is_set(mask, 2) || bit_is_set(mask, 3)
            || bit_is_set(mask, 4) || bit_is_set(mask, 5) || bit_is_set(mask, 6) || bit_is_set(
            mask,
            7,
        ) || bit_is_set(mask, 8) || bit_is_set(mask, 9),
{
}

/// The headers of `used` in the order of the catalogue.
pub open spec fn in_catalogue_order(used: Set<HxRequestHeader>) -> Seq<HxRequestHeader> {
    catalogue().filter(|h: HxRequestHeader| used.contains(h))
}

/// A part of the catalogue: the headers that a ledger takes in, or those
/// that it has recorded.
#[derive(Debug, PartialEq, Eq, Hash)]
pub struct Catalogue {
    mask: u16,
}

impl View for Catalogue {
    type V = Set<HxRequestHeader>;

    closed spec fn view(&self) -> Set<HxRequestHeader> {
        Set::new(|h: HxRequestHeader| bit_is_set(self.mask, h.position()))
    }
}

impl Clone for Catalogue {
    fn clone(&self) -> (part: Catalogue)
        ensures
            part@ == self@,
    {
        proof {
            use_type_invariant(self);
        }
        Catalogue { mask: self.mask }
    }
}

impl Catalogue {
    #[verifier::type_invariant]
    spec fn within_catalogue(self) -> bool {
        self.mask < 1024
    }

    /// No header.
    pub fn none() -> (part: Catalogue)
        ensures
            part@ == Set::<HxRequestHeader>::empty(),
    {
        let part = Catalogue { mask: 0 };
        proof {
            assert forall|h: HxRequestHeader| !part@.contains(h) by {
                lemma_no_bit(h.position());
            }
            assert(part@ =~= Set::<HxRequestHeader>::empty());
        }
        part
    }

    /// Every header of the catalogue.
    pub fn all() -> (part: Catalogue)
        ensures
            part@ == Set::<HxRequestHeader>::full(),
    {
        let part = Catalogue { mask: 1023 };
        proof {
            assert forall|h: HxRequestHeader| part@.contains(h) by {
                lemma_all_bits(h.position());
            }
            assert(part@ =~= Set::<HxRequestHeader>::full());
        }
        part
    }

    /// This part of the catalogue with `header`.
    pub fn with(self, header: HxRequestHeader) -> (part: Catalogue)
        ensures
            part@ == self@.insert(header),
    {
        let mut part = self;
        part.insert(header);
        part
    }

    /// This part of the catalogue without `header`.
    pub fn without(self, header: HxRequestHeader) -> (part: Catalogue)
        ensures
            part@ == self@.remove(header),
    {
        proof {
            use_type_invariant(&self);
        }
        let i: u16 = header.index();
        let before_mask: u16 = self.mask;
        let mask: u16 = before_mask & !(1u16 << i);
        proof {
            assert(mask < 1024) by (bit_vector)
                requires
                    mask == before_mask & !(1u16 << i),
                    before_mask < 1024,
            ;
            assert forall|h: HxRequestHeader|
                bit_is_set(mask, h.position()) == (bit_is_set(before_mask, h.position()) && h
                    != header) by {
                lemma_clear_bit(before_mask, i, h.position());
            }
        }
        let part = Catalogue { mask };
        assert(part@ =~= self@.remove(header));
        part
    }

    /// Puts `header` in. Where it is in already, nothing changes.
    pub fn insert(&mut self, header: HxRequestHeader)
        ensures
            final(self)@ == old(self)@.insert(header),
    {
        proof {
            use_type_invariant(&*self);
        }
        let i: u16 = header.index();
        let before_mask: u16 = self.mask;
        let mask: u16 = before_mask | (1u16 << i);
        proof {
            assert(mask < 1024) by (bit_vector)
                requires
                    mask == before_mask | (1u16 << i),
                    before_mask < 1024,
                    i < 10,
            ;
            assert forall|h: HxRequestHeader|
                bit_is_set(mask, h.position()) == (bit_is_set(before_mask, h.position()) || h
                    == header) by {
                lemma_set_bit(before_mask, i, h.position());
            }
        }
        let ghost before = self@;
        self.mask = mask;
        assert(self@ =~= before.insert(header));
    }

    /// Whether `header` is in this part.
    pub fn contains(&self, header: HxRequestHeader) -> (held: bool)
        ensures
            held == self@.contains(header),
    {
        let i: u16 = header.index();
        self.mask & (1u16 << i) != 0
    }

    /// Whether no header is in this part.
    pub fn is_empty(&self) -> (empty: bool)
        ensures
            empty == (self@ == Set::<HxRequestHeader>::empty()),
    {
        proof {
            use_type_invariant(self);
            if self.mask == 0 {
                assert forall|h: HxRequestHeader| !self@.contains(h) by {
                    lemma_no_bit(h.position());
                }
                assert(self@ =~= Set::<HxRequestHeader>::empty());
            } else {
                lemma_some_bit(self.mask);
                let j: u16 = choose|j: u16| j < 10 && bit_is_set(self.mask, j);
                assert(catalogue()[j as int].position() == j);
                assert(self@.contains(catalogue()[j as int]));
            }
        }
        self.mask == 0
    }

    /// The headers of this part, each once, in the order of the catalogue.
    pub fn headers(&self) -> (used: Vec<HxRequestHeader>)
        ensures
            used@ == in_catalogue_order(self@),
    {
        let mut used: Vec<HxRequestHeader> = Vec::new();
        let mut i: usize = 0;
        let ghost pred = |h: HxRequestHeader| self@.contains(h);
        proof {
            reveal(Seq::filter);
            assert(catalogue().take(0) =~= Seq::<HxRequestHeader>::empty());
        }
        while i < NUM_HX_REQUEST_HEADERS
            invariant
                i <= NUM_HX_REQUEST_HEADERS,
                pred == |h: HxRequestHeader| self@.contains(h),
                used@ == catalogue().take(i as int).filter(pred),
            decreases NUM_HX_REQUEST_HEADERS - i,
        {
            let header = HxRequestHeader::at(i).unwrap();
            proof {
                reveal(Seq::filter);
                let next = catalogue().take(i + 1);
                assert(next.drop_last() =~= catalogue().take(i as int));
                assert(next.last() == header);
            }
            if self.contains(header) {
                used.push(header);
            }
            i += 1;
        }
        proof {
            assert(catalogue().take(NUM_HX_REQUEST_HEADERS as int) =~= catalogue());
        }
        used
    }
}

} // verus!
