//! Cards: an access card's number, validity window, and per-door
//! permissions.

use vstd::prelude::*;
use crate::calendar::Date;
use crate::error::UhppoteError;
use crate::messages::get_card_by_id::GetCardByIDResponse;
use crate::messages::get_card_by_index::GetCardByIndexResponse;
use crate::messages::put_card::PutCardRequest;
use crate::wire::DateBCD;

verus! {

/// An access card: its number, the dates it is valid between, and one
/// permission byte per door (0 no access, 1 access, 2 to 254 access under
/// that time profile).
#[derive(Clone, Debug)]
pub struct Card {
    pub number: u32,
    pub from: Date,
    pub to: Date,
    pub doors: Vec<u8>,
}

impl Card {
    /// A card record carries one permission byte for each of the four doors.
    pub open spec fn wf(self) -> bool {
        self.doors@.len() == 4
    }
}

impl GetCardByIndexResponse {
    /// The card record this response reports; fails when a validity date is
    /// no real date. A missing card comes back as an all-zero record, whose
    /// dates are not valid.
    pub fn to_card(&self) -> (r: Result<Card, UhppoteError>)
        ensures
            r is Ok <==> self.from.spec_to_date() is Ok && self.to.spec_to_date() is Ok,
            r matches Ok(c) ==> c.number == self.card_number && Ok::<Date, UhppoteError>(c.from) == self.from.spec_to_date()
                && Ok::<Date, UhppoteError>(c.to) == self.to.spec_to_date() && c.doors@ == seq![
                self.door_1,
                self.door_2,
                self.door_3,
                self.door_4,
            ],
            self.from.spec_to_date() matches Err(e) ==> r == Err::<Card, UhppoteError>(e),
            self.from.spec_to_date() is Ok ==> (self.to.spec_to_date() matches Err(e) ==> r
                == Err::<Card, UhppoteError>(e)),
    {
        let from = match self.from.to_date() {
            Ok(d) => d,
            Err(e) => {
                return Err(e);
            },
        };
        let to = match self.to.to_date() {
            Ok(d) => d,
            Err(e) => {
                return Err(e);
            },
        };
        let mut doors: Vec<u8> = Vec::new();
        doors.push(self.door_1);
        doors.push(self.door_2);
        doors.push(self.door_3);
        doors.push(self.door_4);
        proof {
            assert(doors@ =~= seq![self.door_1, self.door_2, self.door_3, self.door_4]);
        }
        Ok(Card { number: self.card_number, from, to, doors })
    }
}

impl GetCardByIDResponse {
    /// The card record this response reports; fails when a validity date is
    /// no real date.
    pub fn to_card(&self) -> (r: Result<Card, UhppoteError>)
        ensures
            r is Ok <==> self.from.spec_to_date() is Ok && self.to.spec_to_date() is Ok,
            r matches Ok(c) ==> c.number == self.card_number && Ok::<Date, UhppoteError>(c.from) == self.from.spec_to_date()
                && Ok::<Date, UhppoteError>(c.to) == self.to.spec_to_date() && c.doors@ == seq![
                self.door_1,
                self.door_2,
                self.door_3,
                self.door_4,
            ],
            self.from.spec_to_date() matches Err(e) ==> r == Err::<Card, UhppoteError>(e),
            self.from.spec_to_date() is Ok ==> (self.to.spec_to_date() matches Err(e) ==> r
                == Err::<Card, UhppoteError>(e)),
    {
        let from = match self.from.to_date() {
            Ok(d) => d,
            Err(e) => {
                return Err(e);
            },
        };
        let to = match self.to.to_date() {
            Ok(d) => d,
            Err(e) => {
                return Err(e);
            },
        };
        let mut doors: Vec<u8> = Vec::new();
        doors.push(self.door_1);
        doors.push(self.door_2);
        doors.push(self.door_3);
        doors.push(self.door_4);
        proof {
            assert(doors@ =~= seq![self.door_1, self.door_2, self.door_3, self.door_4]);
        }
        Ok(Card { number: self.card_number, from, to, doors })
    }
}

impl PutCardRequest {
    /// Build the request that stores this card on a controller; fails when a
    /// validity date cannot travel as four BCD digits.
    pub fn for_card(device_id: u32, card: &Card) -> (r: Result<PutCardRequest, UhppoteError>)
        requires
            card.wf(),
        ensures
            r is Ok <==> card.from.fits_bcd() && card.to.fits_bcd(),
            r matches Ok(q) ==> q.device_id == device_id && q.card_id == card.number && q.from
                == DateBCD::spec_of_ymd(
                card.from.year as int,
                card.from.month as int,
                card.from.day as int,
            ) && q.to == DateBCD::spec_of_ymd(
                card.to.year as int,
                card.to.month as int,
                card.to.day as int,
            ) && q.door_1 == card.doors@[0] && q.door_2 == card.doors@[1] && q.door_3
                == card.doors@[2] && q.door_4 == card.doors@[3],
            r is Err ==> r == Err::<PutCardRequest, UhppoteError>(UhppoteError::InvalidDate),
    {
        let from = match card.from.to_bcd() {
            Ok(d) => d,
            Err(e) => {
                return Err(e);
            },
        };
        let to = match card.to.to_bcd() {
            Ok(d) => d,
            Err(e) => {
                return Err(e);
            },
        };
        Ok(
            PutCardRequest::new(
                device_id,
                card.number,
                from,
                to,
                card.doors[0],
                card.doors[1],
                card.doors[2],
                card.doors[3],
            ),
        )
    }
}

} // verus!
