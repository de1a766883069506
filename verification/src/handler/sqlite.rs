//! An in-memory model of the relational store behind the services: user
//! credentials keyed by username, and saved workout summaries keyed by the
//! identifier handed out at insertion.
use vstd::prelude::*;

use crate::measurement::Measurement;
use crate::plan::{WorkoutPlan, WorkoutPlanToken};
use crate::status::Credentials;
use crate::workout::{SummaryView, WorkoutSummary};

verus! {

/// A request sent to the storage backend.
#[derive(Debug)]
pub enum Message {
    SaveWorkout(String),
}

/// Failures while bringing a store up.
#[derive(Debug)]
pub enum DatabaseError {
    CreationFailed(String),
    ConnectionFailed(String),
    MigrationFailed(String),
}

/// The store: a user table and a workout-summary table.
///
/// Workout identifiers are row numbers counted from one, in insertion
/// order, as a relational backend's auto-assigned row ids would be.
pub struct SQLiteHandler {
    pub users: Vec<Credentials>,
    pub workouts: Vec<WorkoutSummary>,
}

/// The stored password hash of `name` in `s`, the latest binding winning.
pub open spec fn user_lookup(s: Seq<Credentials>, name: Seq<char>) -> Option<Seq<char>>
    decreases s.len(),
{
    if s.len() == 0 {
        None
    } else if s.last().username@ == name {
        Some(s.last().password@)
    } else {
        user_lookup(s.drop_last(), name)
    }
}

/// A username is bound exactly when some row carries it.
pub proof fn lemma_user_lookup_exists(s: Seq<Credentials>, name: Seq<char>)
    ensures
        user_lookup(s, name) is Some <==> exists|i: int|
            0 <= i < s.len() && s[i].username@ == name,
    decreases s.len(),
{
    if s.len() > 0 {
        lemma_user_lookup_exists(s.drop_last(), name);
        if s.last().username@ == name {
            assert(s[s.len() - 1].username@ == name);
        } else if user_lookup(s.drop_last(), name) is Some {
            let i = choose|i: int| 0 <= i < s.len() - 1 && s.drop_last()[i].username@ == name;
            assert(s[i].username@ == name);
        } else if exists|i: int| 0 <= i < s.len() && s[i].username@ == name {
            let i = choose|i: int| 0 <= i < s.len() && s[i].username@ == name;
            assert(s.drop_last()[i].username@ == name);
        }
    }
}

/// `summary` with its identifier set to `id`.
pub open spec fn with_id(summary: SummaryView, id: i32) -> SummaryView {
    SummaryView {
        id: Some(id),
        km_ridden_milli: summary.km_ridden_milli,
        avg_speed_milli: summary.avg_speed_milli,
        avg_watts: summary.avg_watts,
        avg_rpm: summary.avg_rpm,
        avg_heartrate: summary.avg_heartrate,
        measurements: summary.measurements,
    }
}

impl SQLiteHandler {
    /// The user table as a map from username to stored password hash.
    pub open spec fn user_view(&self) -> Map<Seq<char>, Seq<char>> {
        Map::new(
            |name: Seq<char>| user_lookup(self.users@, name) is Some,
            |name: Seq<char>| user_lookup(self.users@, name).unwrap(),
        )
    }

    /// The workout table, in insertion order.
    pub open spec fn summaries(&self) -> Seq<SummaryView> {
        self.workouts@.map_values(|w: WorkoutSummary| w@)
    }

    /// An empty store.
    pub fn new() -> (r: Self)
        ensures
            r.user_view() == Map::<Seq<char>, Seq<char>>::empty(),
            r.summaries() == Seq::<SummaryView>::empty(),
    {
        let r = SQLiteHandler { users: Vec::new(), workouts: Vec::new() };
        proof {
            assert(r.user_view() =~= Map::<Seq<char>, Seq<char>>::empty());
            assert(r.summaries() =~= Seq::<SummaryView>::empty());
        }
        r
    }

    /// Inserts a user row, unless the username is already taken; the
    /// username's uniqueness is enforced here, at creation time.
    pub fn create_user(&mut self, username: String, password: String) -> (r: bool)
        ensures
            r == !old(self).user_view().contains_key(username@),
            r ==> final(self).user_view() == old(self).user_view().insert(
                username@,
                password@,
            ),
            !r ==> final(self).user_view() == old(self).user_view(),
            final(self).summaries() == old(self).summaries(),
    {
        proof {
            lemma_user_lookup_exists(self.users@, username@);
        }
        let n = self.users.len();
        let mut i: usize = 0;
        while i < n
            invariant
                *self == *old(self),
                i <= n == self.users@.len(),
                forall|j: int| 0 <= j < i ==> self.users@[j].username@ != username@,
            decreases n - i,
        {
            if self.users[i].username == username {
                proof {
                    assert(self.users@[i as int].username@ == username@);
                    lemma_user_lookup_exists(self.users@, username@);
                }
                return false;
            }
            i += 1;
        }
        let ghost prev = *self;
        self.users.push(Credentials { username, password });
        proof {
            let s = self.users@;
            assert(s.drop_last() =~= prev.users@);
            assert(self.user_view() =~= prev.user_view().insert(
                s.last().username@,
                s.last().password@,
            ));
            assert(self.summaries() =~= prev.summaries());
        }
        true
    }

    /// The stored password hash for a username, if any row carries it.
    pub fn get_hashed_password(&self, username: String) -> (r: Option<String>)
        ensures
            match r {
                Some(h) => self.user_view().contains_key(username@) && h@ == self.user_view().index(
                    username@,
                ),
                None => !self.user_view().contains_key(username@),
            },
    {
        let mut i: usize = self.users.len();
        proof {
            assert(self.users@.take(i as int) =~= self.users@);
        }
        while i > 0
            invariant
                i <= self.users@.len(),
                user_lookup(self.users@, username@) == user_lookup(
                    self.users@.take(i as int),
                    username@,
                ),
            decreases i,
        {
            i -= 1;
            proof {
                assert(self.users@.take(i + 1).last() == self.users@[i as int]);
                assert(self.users@.take(i + 1).drop_last() =~= self.users@.take(i as int));
            }
            if self.users[i].username == username {
                return Some(self.users[i].password.clone());
            }
        }
        proof {
            assert(self.users@.take(0) =~= Seq::<Credentials>::empty());
        }
        None
    }

    /// Appends a summary row and returns its identifier: the new row
    /// count, rows being numbered from one.
    pub fn save_workout(&mut self, summary: &WorkoutSummary) -> (id: i32)
        requires
            old(self).workouts@.len() < i32::MAX,
        ensures
            id == old(self).summaries().len() + 1,
            final(self).summaries() == old(self).summaries().push(with_id(summary@, id)),
            final(self).user_view() == old(self).user_view(),
    {
        let id = (self.workouts.len() + 1) as i32;
        let mut stored = summary.clone();
        stored.id = Some(id);
        let ghost prev = *self;
        self.workouts.push(stored);
        proof {
            assert(self.workouts@.drop_last() =~= prev.workouts@);
            assert(self.summaries() =~= prev.summaries().push(with_id(summary@, id)));
            assert(self.user_view() =~= prev.user_view());
        }
        id
    }

    /// Plans are not persisted yet: answers the fixed placeholder token,
    /// as the backend stub does, and stores nothing.
    pub fn save_plan(&self, _plan: &WorkoutPlan) -> (r: WorkoutPlanToken)
        ensures
            r.workout_token == 1,
    {
        WorkoutPlanToken { workout_token: 1 }
    }

    /// The measurements of the workout saved under `workout_id`; an
    /// unknown identifier yields an empty list, as a row query that
    /// matches nothing would.
    pub fn get_measurements(&self, workout_id: i32) -> (r: Option<Vec<Measurement>>)
        ensures
            r is Some,
            1 <= workout_id <= self.summaries().len() ==> r.unwrap()@ == self.summaries().index(
                workout_id - 1,
            ).measurements,
            !(1 <= workout_id <= self.summaries().len()) ==> r.unwrap()@ == Seq::<
                Measurement,
            >::empty(),
    {
        if workout_id >= 1 && (workout_id as usize) <= self.workouts.len() {
            let idx = (workout_id as usize) - 1;
            let ms = self.workouts[idx].measurements.clone();
            proof {
                assert(ms@ =~= self.summaries()[workout_id - 1].measurements);
            }
            Some(ms)
        } else {
            let ms: Vec<Measurement> = Vec::new();
            proof {
                assert(ms@ =~= Seq::<Measurement>::empty());
            }
            Some(ms)
        }
    }
}

} // verus!
