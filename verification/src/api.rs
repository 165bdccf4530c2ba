//! Records exchanged with the station/departure data provider.
//!
//! The provider performs the network round trips and hands this crate
//! fully parsed records as plain values; geographic coordinates arrive
//! scaled to integer microdegrees. The catalog of `Station` values is
//! loaded once at startup and afterwards only read and filtered;
//! `DepartureInfo` lists are replaced wholesale on every refresh.

use vstd::prelude::*;

verus! {

/// Mathematical image of a `Station`: every text field as a sequence of
/// characters, every number as an unbounded integer.
#[verifier::ext_equal]
pub struct StationV {
    pub name: Seq<char>,
    pub place: Seq<char>,
    pub id: Seq<char>,
    pub diva_id: int,
    pub abbreviation: Option<Seq<char>>,
    pub tariff_zones: Seq<char>,
    pub products: Seq<Seq<char>>,
    pub latitude: int,
    pub longitude: int,
}

/// One entry of the station catalog. `id` is globally unique;
/// `latitude` and `longitude` are in microdegrees.
pub struct Station {
    pub name: String,
    pub place: String,
    pub id: String,
    pub diva_id: i64,
    pub abbreviation: Option<String>,
    pub tariff_zones: String,
    pub products: Vec<String>,
    pub latitude: i64,
    pub longitude: i64,
}

impl DeepView for Station {
    type V = StationV;

    open spec fn deep_view(&self) -> StationV {
        StationV {
            name: self.name@,
            place: self.place@,
            id: self.id@,
            diva_id: self.diva_id as int,
            abbreviation: self.abbreviation.deep_view(),
            tariff_zones: self.tariff_zones@,
            products: self.products.deep_view(),
            latitude: self.latitude as int,
            longitude: self.longitude as int,
        }
    }
}

impl Clone for Station {
    /// A cloned station describes the same station: the copy has the
    /// same mathematical image as the original.
    fn clone(&self) -> (res: Self)
        ensures
            res.deep_view() == self.deep_view(),
    {
        let res = Station {
            name: self.name.clone(),
            place: self.place.clone(),
            id: self.id.clone(),
            diva_id: self.diva_id,
            abbreviation: match &self.abbreviation {
                Some(a) => Some(a.clone()),
                None => None,
            },
            tariff_zones: self.tariff_zones.clone(),
            products: self.products.clone(),
            latitude: self.latitude,
            longitude: self.longitude,
        };
        proof {
            assert forall|i: int| 0 <= i < self.products@.len() implies res.products@[i]@
                == self.products@[i]@ by {
                assert(cloned::<String>(self.products@[i], res.products@[i]));
            }
            assert(res.products.deep_view() =~~= self.products.deep_view());
            assert(res.deep_view() =~~= self.deep_view());
        }
        res
    }
}

/// Mathematical image of a `DepartureInfo`.
#[verifier::ext_equal]
pub struct DepartureInfoV {
    pub planned_departure_time: int,
    pub realtime: bool,
    pub delay_in_minutes: Option<int>,
    pub realtime_departure_time: int,
    pub transport_type: Seq<char>,
    pub label: Seq<char>,
    pub diva_id: Seq<char>,
    pub network: Seq<char>,
    pub train_type: Seq<char>,
    pub destination: Seq<char>,
    pub cancelled: bool,
    pub sev: bool,
    pub platform: Option<int>,
    pub messages: Seq<Seq<char>>,
    pub banner_hash: Seq<char>,
    pub occupancy: Seq<char>,
    pub stop_point_global_id: Seq<char>,
}

/// One departure from the currently selected station. Timestamps are
/// epoch milliseconds; `platform` is absent where the stop has none.
pub struct DepartureInfo {
    pub planned_departure_time: i64,
    pub realtime: bool,
    pub delay_in_minutes: Option<i64>,
    pub realtime_departure_time: i64,
    pub transport_type: String,
    pub label: String,
    pub diva_id: String,
    pub network: String,
    pub train_type: String,
    pub destination: String,
    pub cancelled: bool,
    pub sev: bool,
    pub platform: Option<i64>,
    pub messages: Vec<String>,
    pub banner_hash: String,
    pub occupancy: String,
    pub stop_point_global_id: String,
}

impl DeepView for DepartureInfo {
    type V = DepartureInfoV;

    open spec fn deep_view(&self) -> DepartureInfoV {
        DepartureInfoV {
            planned_departure_time: self.planned_departure_time as int,
            realtime: self.realtime,
            delay_in_minutes: match self.delay_in_minutes {
                Some(d) => Some(d as int),
                None => None,
            },
            realtime_departure_time: self.realtime_departure_time as int,
            transport_type: self.transport_type@,
            label: self.label@,
            diva_id: self.diva_id@,
            network: self.network@,
            train_type: self.train_type@,
            destination: self.destination@,
            cancelled: self.cancelled,
            sev: self.sev,
            platform: match self.platform {
                Some(p) => Some(p as int),
                None => None,
            },
            messages: self.messages.deep_view(),
            banner_hash: self.banner_hash@,
            occupancy: self.occupancy@,
            stop_point_global_id: self.stop_point_global_id@,
        }
    }
}

impl Clone for DepartureInfo {
    /// A cloned record describes the same departure: the copy has the
    /// same mathematical image as the original.
    fn clone(&self) -> (res: Self)
        ensures
            res.deep_view() == self.deep_view(),
    {
        let res = DepartureInfo {
            planned_departure_time: self.planned_departure_time,
            realtime: self.realtime,
            delay_in_minutes: self.delay_in_minutes,
            realtime_departure_time: self.realtime_departure_time,
            transport_type: self.transport_type.clone(),
            label: self.label.clone(),
            diva_id: self.diva_id.clone(),
            network: self.network.clone(),
            train_type: self.train_type.clone(),
            destination: self.destination.clone(),
            cancelled: self.cancelled,
            sev: self.sev,
            platform: self.platform,
            messages: self.messages.clone(),
            banner_hash: self.banner_hash.clone(),
            occupancy: self.occupancy.clone(),
            stop_point_global_id: self.stop_point_global_id.clone(),
        };
        proof {
            assert forall|i: int| 0 <= i < self.messages@.len() implies res.messages@[i]@
                == self.messages@[i]@ by {
                assert(cloned::<String>(self.messages@[i], res.messages@[i]));
            }
            assert(res.messages.deep_view() =~~= self.messages.deep_view());
            assert(res.deep_view() =~~= self.deep_view());
        }
        res
    }
}

/// The one error kind the core ever sees from the data provider: any
/// transport or decode failure collapses into this opaque value.
#[derive(Clone, Copy, PartialEq, Eq, Structural, Debug)]
pub struct FetchError;

} // verus!
