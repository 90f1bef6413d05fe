//! The state behind the viewer of the programmable interval timer: the state
//! values of its channels, with the ages that fade a value in after it
//! changed, and the output samples of each channel.
use vstd::prelude::*;
use crate::syntax_token::{older, SyntaxToken};

verus! {

/// One named state value of a timer channel.
pub struct PitStateEntry {
    pub key: String,
    pub token: SyntaxToken,
}

/// The age of the first state value named `key` in `row`, if there is one.
pub open spec fn age_of_key(row: Seq<PitStateEntry>, key: Seq<char>) -> Option<u8>
    decreases row.len(),
{
    if row.len() == 0 {
        None
    } else if row[0].key@ == key {
        match row[0].token {
            SyntaxToken::StateString(_, _, age) => Some(age),
            _ => None,
        }
    } else {
        age_of_key(row.subrange(1, row.len() as int), key)
    }
}

/// A state value as the viewer keeps it when it arrives while the channel
/// shows `shown` (nothing, for a channel that the viewer did not have): a
/// value that is marked as changed starts at age zero; a value that the
/// viewer had under the same key is two frames older than that one was; any
/// other token stays as it came.
pub open spec fn aged_entry(e: PitStateEntry, shown: Option<Seq<PitStateEntry>>) -> PitStateEntry {
    match e.token {
        SyntaxToken::StateString(text, dirty, age) => if dirty {
            PitStateEntry { key: e.key, token: SyntaxToken::StateString(text, dirty, 0) }
        } else {
            match shown {
                Some(row) => match age_of_key(row, e.key@) {
                    Some(a) => PitStateEntry {
                        key: e.key,
                        token: SyntaxToken::StateString(text, dirty, older(a, 2)),
                    },
                    None => e,
                },
                None => e,
            }
        },
        _ => e,
    }
}

/// The channels of a timer state.
pub open spec fn channels_of(v: Vec<Vec<PitStateEntry>>) -> Seq<Seq<PitStateEntry>> {
    Seq::new(v@.len(), |i: int| v@[i]@)
}

/// The state that the viewer keeps when it is given `new` while it shows
/// `old`.
pub open spec fn aged_state(
    new: Seq<Seq<PitStateEntry>>,
    old: Seq<Seq<PitStateEntry>>,
) -> Seq<Seq<PitStateEntry>> {
    Seq::new(
        new.len(),
        |i: int|
            Seq::new(
                new[i].len(),
                |j: int|
                    aged_entry(
                        new[i][j],
                        if i < old.len() {
                            Some(old[i])
                        } else {
                            None
                        },
                    ),
            ),
    )
}

pub struct PitViewerControl {
    pit_state: Vec<Vec<PitStateEntry>>,
    channel0: Vec<u8>,
    channel1: Vec<u8>,
    channel2: Vec<u8>,
}

fn find_age(row: &Vec<PitStateEntry>, key: &String) -> (r: Option<u8>)
    ensures
        r == age_of_key(row@, key@),
{
    let n = row.len();
    let mut k: usize = 0;
    assert(row@.subrange(0, n as int) =~= row@);
    while k < n
        invariant
            k <= n,
            n == row@.len(),
            age_of_key(row@.subrange(k as int, n as int), key@) == age_of_key(row@, key@),
        decreases n - k,
    {
        proof {
            let rest = row@.subrange(k as int, n as int);
            assert(rest[0] == row@[k as int]);
            assert(rest.subrange(1, rest.len() as int) =~= row@.subrange(k + 1, n as int));
        }
        if row[k].key.eq(key) {
            return match &row[k].token {
                SyntaxToken::StateString(_, _, age) => Some(*age),
                _ => None,
            };
        }
        k = k + 1;
    }
    None
}

impl SyntaxToken {
    /// The age of a state value, and whether it is marked as changed.
    pub fn state_age(&self) -> (r: Option<(bool, u8)>)
        ensures
            r == match *self {
                SyntaxToken::StateString(_, dirty, age) => Some((dirty, age)),
                _ => None::<(bool, u8)>,
            },
    {
        match self {
            SyntaxToken::StateString(_, dirty, age) => Some((*dirty, *age)),
            _ => None,
        }
    }

    /// Sets the age of a state value.
    pub fn set_state_age(&mut self, a: u8)
        ensures
            *final(self) == match *old(self) {
                SyntaxToken::StateString(text, dirty, _) => SyntaxToken::StateString(
                    text,
                    dirty,
                    a,
                ),
                _ => *old(self),
            },
    {
        match self {
            SyntaxToken::StateString(_, _, age) => {
                *age = a;
            },
            _ => {},
        }
    }
}

fn age_entry(e: &mut PitStateEntry, shown: Option<&Vec<PitStateEntry>>)
    ensures
        *final(e) == aged_entry(
            *old(e),
            match shown {
                Some(row) => Some(row@),
                None => None,
            },
        ),
{
    match e.token.state_age() {
        Some((dirty, _)) => {
            if dirty {
                e.token.set_state_age(0);
            } else {
                match shown {
                    Some(row) => {
                        match find_age(row, &e.key) {
                            Some(a) => {
                                e.token.set_state_age(a.saturating_add(2));
                            },
                            None => {},
                        }
                    },
                    None => {},
                }
            }
        },
        None => {},
    }
}

fn age_channel(row: &mut Vec<PitStateEntry>, shown: Option<&Vec<PitStateEntry>>)
    ensures
        final(row)@ == Seq::new(
            old(row)@.len(),
            |j: int|
                aged_entry(
                    old(row)@[j],
                    match shown {
                        Some(r) => Some(r@),
                        None => None,
                    },
                ),
        ),
{
    let n = row.len();
    let ghost view = match shown {
        Some(r) => Some(r@),
        None => None,
    };
    let mut k: usize = 0;
    while k < n
        invariant
            k <= n,
            row@.len() == n,
            n == old(row)@.len(),
            view == match shown {
                Some(r) => Some(r@),
                None => None,
            },
            forall|j: int| 0 <= j < k ==> row@[j] == aged_entry(old(row)@[j], view),
            forall|j: int| k <= j < n ==> row@[j] == old(row)@[j],
        decreases n - k,
    {
        age_entry(&mut row[k], shown);
        k = k + 1;
    }
    assert(row@ =~= Seq::new(old(row)@.len(), |j: int| aged_entry(old(row)@[j], view)));
}

impl PitViewerControl {
    /// The state values that the viewer shows.
    pub closed spec fn state(&self) -> Seq<Seq<PitStateEntry>> {
        channels_of(self.pit_state)
    }

    /// The output samples of a channel.
    pub closed spec fn samples(&self, channel: int) -> Seq<u8> {
        if channel == 0 {
            self.channel0@
        } else if channel == 1 {
            self.channel1@
        } else {
            self.channel2@
        }
    }

    /// A viewer that shows nothing.
    pub fn new() -> (v: Self)
        ensures
            v.state().len() == 0,
            forall|c: int| v.samples(c).len() == 0,
    {
        Self {
            pit_state: Vec::new(),
            channel0: Vec::new(),
            channel1: Vec::new(),
            channel2: Vec::new(),
        }
    }

    /// Takes a new timer state and ages its values against the state shown.
    pub fn update_state(&mut self, state: Vec<Vec<PitStateEntry>>)
        ensures
            final(self).state() == aged_state(channels_of(state), old(self).state()),
            forall|c: int| final(self).samples(c) == old(self).samples(c),
    {
        let mut state = state;
        let ghost given = channels_of(state);
        let ghost shown = channels_of(self.pit_state);
        let n = state.len();
        let mut k: usize = 0;
        while k < n
            invariant
                k <= n,
                state@.len() == n,
                given.len() == n,
                shown == channels_of(self.pit_state),
                forall|i: int|
                    0 <= i < k ==> (#[trigger] state@[i])@ == Seq::new(
                        given[i].len(),
                        |j: int|
                            aged_entry(
                                given[i][j],
                                if i < shown.len() {
                                    Some(shown[i])
                                } else {
                                    None
                                },
                            ),
                    ),
                forall|i: int| k <= i < n ==> (#[trigger] state@[i])@ == given[i],
                forall|c: int| self.samples(c) == old(self).samples(c),
            decreases n - k,
        {
            if k < self.pit_state.len() {
                age_channel(&mut state[k], Some(&self.pit_state[k]));
            } else {
                age_channel(&mut state[k], None);
            }
            k = k + 1;
        }
        assert(channels_of(state) =~= aged_state(given, shown));
        self.pit_state = state;
    }

    /// The state values of the channels, for painting.
    pub fn pit_state(&self) -> (s: &Vec<Vec<PitStateEntry>>)
        ensures
            channels_of(*s) == self.state(),
    {
        &self.pit_state
    }

    /// Takes the output samples of a channel.
    pub fn update_channel_data(&mut self, channel: usize, data: &[u8])
        requires
            channel < 3,
        ensures
            final(self).samples(channel as int) == data@,
            forall|c: int|
                0 <= c < 3 && c != channel ==> final(self).samples(c) == old(self).samples(c),
            final(self).state() == old(self).state(),
    {
        let mut v: Vec<u8> = Vec::new();
        let mut k: usize = 0;
        while k < data.len()
            invariant
                k <= data@.len(),
                v@ == data@.subrange(0, k as int),
            decreases data@.len() - k,
        {
            v.push(data[k]);
            assert(v@ =~= data@.subrange(0, k + 1));
            k = k + 1;
        }
        assert(v@ =~= data@);
        if channel == 0 {
            self.channel0 = v;
        } else if channel == 1 {
            self.channel1 = v;
        } else {
            self.channel2 = v;
        }
    }

    /// The output samples of a channel; nothing for a channel that the timer
    /// does not have.
    pub fn channel_data(&self, channel: usize) -> (d: &Vec<u8>)
        ensures
            d@ == self.samples(channel as int),
    {
        if channel == 0 {
            &self.channel0
        } else if channel == 1 {
            &self.channel1
        } else {
            &self.channel2
        }
    }
}

} // verus!
