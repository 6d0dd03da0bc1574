//! The accounts that a request names: the storage slot of a record and the
//! identity that signed the request.

use vstd::prelude::*;
use crate::pubkey::Pubkey;
use crate::state::{Tweet, TweetView};

verus! {

/// The identity that signed a request, with the balance it holds.
#[derive(Clone, Copy, Debug, PartialEq, Eq)]
pub struct Signer {
    pub key: Pubkey,
    pub lamports: u64,
}

/// A `Signer` with its balance as a natural number.
pub struct SignerView {
    pub key: Pubkey,
    pub lamports: nat,
}

impl View for Signer {
    type V = SignerView;

    open spec fn view(&self) -> SignerView {
        SignerView { key: self.key, lamports: self.lamports as nat }
    }
}

/// The storage slot of one record: the deposit that pays for the storage,
/// and the record, if the slot holds one.
#[derive(Clone, Debug, PartialEq, Eq)]
pub struct TweetAccount {
    pub lamports: u64,
    pub data: Option<Tweet>,
}

/// A `TweetAccount` with its deposit as a natural number and its record by
/// its view.
pub struct TweetAccountView {
    pub lamports: nat,
    pub data: Option<TweetView>,
}

impl TweetAccountView {
    /// The slot holds a record, and `who` is its author.
    pub open spec fn is_owned_by(self, who: Pubkey) -> bool {
        self.data is Some && self.data->0.author == who
    }

    /// The record in the slot, if there is one, is within the length limits.
    pub open spec fn well_formed(self) -> bool {
        self.data is Some ==> self.data->0.within_limits()
    }
}

impl View for TweetAccount {
    type V = TweetAccountView;

    open spec fn view(&self) -> TweetAccountView {
        TweetAccountView {
            lamports: self.lamports as nat,
            data: match self.data {
                Some(tweet) => Some(tweet@),
                None => None,
            },
        }
    }
}

impl TweetAccount {
    /// A slot without a record, holding the given deposit.
    pub fn empty(lamports: u64) -> (slot: TweetAccount)
        ensures
            slot@ == (TweetAccountView { lamports: lamports as nat, data: None }),
            slot@.well_formed(),
    {
        TweetAccount { lamports, data: None }
    }

    /// Reads the slot: the record, or `None` where the slot holds none.
    pub fn record(&self) -> (found: Option<&Tweet>)
        ensures
            found is Some <==> self.data is Some,
            found is Some ==> *found->0 == self.data->0,
    {
        self.data.as_ref()
    }
}

/// The two accounts of a request, as the rules of the store see them.
pub struct Accounts {
    pub tweet: TweetAccountView,
    pub author: SignerView,
}

impl Accounts {
    /// The signer is the author of the record in the slot.
    pub open spec fn authorized(self) -> bool {
        self.tweet.is_owned_by(self.author.key)
    }
}

/// Accounts of a request to store a new record: a slot that the signer has
/// paid for, and the signer, who becomes the author.
#[derive(Clone, Debug, PartialEq, Eq)]
pub struct SendTweet {
    pub tweet: TweetAccount,
    pub author: Signer,
}

/// Accounts of a request to change a record.
#[derive(Clone, Debug, PartialEq, Eq)]
pub struct UpdateTweet {
    pub tweet: TweetAccount,
    pub author: Signer,
}

/// Accounts of a request to remove a record; the deposit goes to the signer.
#[derive(Clone, Debug, PartialEq, Eq)]
pub struct DeleteTweet {
    pub tweet: TweetAccount,
    pub author: Signer,
}

impl View for SendTweet {
    type V = Accounts;

    open spec fn view(&self) -> Accounts {
        Accounts { tweet: self.tweet@, author: self.author@ }
    }
}

impl View for UpdateTweet {
    type V = Accounts;

    open spec fn view(&self) -> Accounts {
        Accounts { tweet: self.tweet@, author: self.author@ }
    }
}

impl View for DeleteTweet {
    type V = Accounts;

    open spec fn view(&self) -> Accounts {
        Accounts { tweet: self.tweet@, author: self.author@ }
    }
}

} // verus!
