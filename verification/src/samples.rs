//! Small services and values for trying the library out.

use crate::cbor::{cbor_i32, cbor_of_text, Cbor};
use crate::decimal::{decimal, signed_decimal, spec_decimal, spec_signed_decimal};
use crate::error::DispatchError;
use crate::packet::MethodId;
use crate::service::export_import::{create_skeleton, IntoSkeleton, Skeleton};
use crate::service::null::NullServiceImpl;
use crate::service::{Dispatch, HandleInstance, Service};
use std::sync::Arc;
use vstd::prelude::*;
use vstd::string::StringExecFns;

verus! {

/// Where a relayed message goes next.
#[derive(PartialEq, Debug)]
pub enum Answer {
    /// The name of the next module to visit.
    Next(String),
    /// The path has ended; this is the answer for the destination.
    End(String),
}

/// For each module, how many threads it may still use towards each other
/// module.
pub type AvailiableMap = Vec<Vec<usize>>;

/// What `new_avail_map` puts at row `i`, column `j`: nothing towards
/// oneself, `value` towards everyone else.
pub open spec fn spec_avail(i: int, j: int, value: usize) -> usize {
    if i == j {
        0
    } else {
        value
    }
}

/// Whether `map` is the square map of the given size that holds `value`
/// everywhere but on its diagonal, which holds zero.
pub open spec fn spec_is_avail_map(map: AvailiableMap, size: usize, value: usize) -> bool {
    &&& map@.len() == size
    &&& forall|i: int| 0 <= i < size ==> (#[trigger] map@[i])@.len() == size
    &&& forall|i: int, j: int|
        0 <= i < size && 0 <= j < size ==> (#[trigger] map@[i]@[j]) == spec_avail(i, j, value)
}

/// Makes the map of `size` modules in which each may use `value` threads
/// towards each other module and none towards itself.
pub fn new_avail_map(size: usize, value: usize) -> (result: AvailiableMap)
    ensures
        spec_is_avail_map(result, size, value),
{
    let mut result: Vec<Vec<usize>> = Vec::new();
    let mut i: usize = 0;
    while i < size
        invariant
            i <= size,
            result@.len() == i,
            forall|a: int| 0 <= a < i ==> (#[trigger] result@[a])@.len() == size,
            forall|a: int, b: int|
                0 <= a < i && 0 <= b < size ==> (#[trigger] result@[a]@[b]) == spec_avail(
                    a,
                    b,
                    value,
                ),
        decreases size - i,
    {
        let mut row: Vec<usize> = Vec::new();
        let mut j: usize = 0;
        while j < size
            invariant
                j <= size,
                i < size,
                row@.len() == j,
                forall|b: int| 0 <= b < j ==> (#[trigger] row@[b]) == spec_avail(i as int, b, value),
            decreases size - j,
        {
            if i == j {
                row.push(0);
            } else {
                row.push(value);
            }
            j = j + 1;
        }
        result.push(row);
        i = i + 1;
    }
    result
}

/// A robot that greets.
pub trait HelloRobot: Service {
    fn hello(&self, flag: i32) -> String;
}

/// A maker of robots.
pub trait HelloFactory: Service {
    fn create(&self, name: &str) -> Arc<Robot>;
}

/// A shared schedule: taking it locks it, setting it unlocks it.
pub trait Schedule: Service {
    /// Gets the schedule. It is then locked.
    fn get(&self) -> AvailiableMap;

    /// Sets the schedule. It is then unlocked.
    fn set(&self, s: AvailiableMap);
}

/// A service to try calls on.
pub trait Ping: Service {
    fn ping(&self);

    fn ping_mut(&mut self);

    fn ping_barrier(&self);
}

/// A service that hands out pings.
pub trait Hello: Service {
    /// The kind of ping that is handed out.
    type Made: Ping;

    fn hey(&self) -> Arc<Self::Made>;
}

/// A maker of relayer machines, which also knows the paths.
pub trait RelayerFactory: Service {
    /// The kind of machine that is made.
    type Machine: RelayerMachine;

    /// Makes a machine for a single visit, one step further on the path.
    fn create(&self, key: String, current: usize, destination: String) -> Arc<Self::Machine>;

    /// Returns the name of the next module to visit.
    fn ask_path(&self, key: String, current: usize) -> Answer;
}

/// A machine that follows a path from module to module.
pub trait RelayerMachine: Service {
    /// Follows the whole path and returns the answer for the destination.
    fn run(&self) -> String;
}

/// A service with methods of several shapes.
pub trait TestService: Service {
    /// Makes a new service named after the arguments.
    fn fn1(&self, a1: String, a2: &str, a3: &[u8]) -> Arc<TestImpl>;

    /// Writes the argument in decimal.
    fn fn2(&self, a2: &u8) -> String;

    /// Returns the name of the service.
    fn fn3(&self) -> String;
}

/// The robot of the sample: it greets with its name and the flag.
pub struct Robot {
    pub handle: HandleInstance,
    pub name: String,
}

impl Service for Robot {
}

impl HelloRobot for Robot {
    fn hello(&self, flag: i32) -> (greeting: String)
        ensures
            greeting@ == self.name@ + spec_signed_decimal(flag as int),
    {
        self.name.clone().concat(signed_decimal(flag as i64).as_str())
    }
}

/// The factory of the sample: it makes robots by name.
pub struct Factory {
    pub handle: HandleInstance,
}

impl Service for Factory {
}

impl HelloFactory for Factory {
    fn create(&self, name: &str) -> (robot: Arc<Robot>)
        ensures
            robot.name@ == name@,
            robot.handle == HandleInstance::default_spec(),
    {
        Arc::new(Robot { handle: HandleInstance::default(), name: name.to_owned() })
    }
}

/// The test service of the sample.
pub struct TestImpl {
    pub handle: HandleInstance,
    pub name: String,
}

impl Service for TestImpl {
}

impl TestService for TestImpl {
    fn fn1(&self, a1: String, a2: &str, a3: &[u8]) -> (made: Arc<TestImpl>)
        ensures
            made.name@ == a1@ + a2@ + spec_decimal(a3@.len()),
            made.handle == HandleInstance::default_spec(),
    {
        let name = a1.concat(a2).concat(decimal(a3.len() as u64).as_str());
        Arc::new(TestImpl { handle: HandleInstance::default(), name })
    }

    fn fn2(&self, a2: &u8) -> (written: String)
        ensures
            written@ == spec_decimal(*a2 as nat),
    {
        decimal(*a2 as u64)
    }

    fn fn3(&self) -> (name: String)
        ensures
            name@ == self.name@,
    {
        self.name.clone()
    }
}

/// The skeleton of `HelloRobot`: its one method, `hello`, has id zero, takes
/// the flag as a CBOR integer and returns the greeting as a CBOR text.
pub struct HelloRobotDispatcher<T: HelloRobot + ?Sized> {
    object: Arc<T>,
}

impl<T: HelloRobot + ?Sized> HelloRobotDispatcher<T> {
    pub fn new(object: Arc<T>) -> (dispatcher: Self)
        ensures
            dispatcher.spec_object() == object,
    {
        HelloRobotDispatcher { object }
    }

    /// The robot that the skeleton calls.
    pub closed spec fn spec_object(&self) -> Arc<T> {
        self.object
    }
}

impl<T: HelloRobot + ?Sized> Dispatch for HelloRobotDispatcher<T> {
    /// A method other than zero is unknown. Arguments that hold no integer
    /// are rejected. Otherwise the result is the CBOR form of a greeting
    /// that the robot gave for the flag.
    open spec fn answers(
        &self,
        method: MethodId,
        args: Seq<u8>,
        ret: Result<Seq<u8>, DispatchError>,
    ) -> bool {
        if method != 0 {
            ret == Err::<Seq<u8>, _>(DispatchError::UnknownMethod)
        } else {
            match cbor_i32(args) {
                None => ret == Err::<Seq<u8>, _>(DispatchError::Codec),
                Some(flag) => match ret {
                    Err(_) => false,
                    Ok(bytes) => exists|greeting: String|
                        #[trigger] call_ensures(T::hello, (&*self.spec_object(), flag), greeting)
                            && bytes == cbor_of_text(greeting@),
                },
            }
        }
    }

    fn dispatch_and_call(&self, method: MethodId, args: &[u8]) -> (ret: Result<
        Vec<u8>,
        DispatchError,
    >) {
        if method != 0 {
            return Err(DispatchError::UnknownMethod);
        }
        let flag = match Cbor::i32_from_slice(args) {
            Ok(flag) => flag,
            Err(_) => {
                return Err(DispatchError::Codec);
            },
        };
        let greeting = self.object.hello(flag);
        match Cbor::text_to_vec(greeting.as_str()) {
            Ok(bytes) => {
                assert(call_ensures(T::hello, (&*self.spec_object(), flag), greeting));
                Ok(bytes)
            },
            Err(_) => Err(DispatchError::Codec),
        }
    }
}

impl IntoSkeleton<Robot> for Arc<Robot> {
    type Dispatcher = HelloRobotDispatcher<Robot>;

    fn into_skeleton(self) -> (skeleton: Skeleton<HelloRobotDispatcher<Robot>>)
        ensures
            skeleton@.spec_object() == self,
    {
        create_skeleton(Arc::new(HelloRobotDispatcher::new(self)))
    }
}

/// A sample service whose trait is forgotten: what a pool of services to
/// export holds.
pub enum AnyService {
    Null(Arc<NullServiceImpl>),
    Robot(Arc<Robot>),
    Factory(Arc<Factory>),
    Test(Arc<TestImpl>),
}

impl Service for AnyService {
}

/// Conversion between a service seen as itself and seen as any service. It
/// fails where the service is of another kind.
pub trait Cast<Target>: Sized {
    /// What the conversion gives.
    spec fn spec_cast(self) -> Option<Target>;

    fn cast(self) -> (target: Option<Target>)
        ensures
            target == self.spec_cast(),
    ;
}

impl Cast<AnyService> for Arc<TestImpl> {
    open spec fn spec_cast(self) -> Option<AnyService> {
        Some(AnyService::Test(self))
    }

    fn cast(self) -> (target: Option<AnyService>) {
        Some(AnyService::Test(self))
    }
}

impl Cast<Arc<TestImpl>> for AnyService {
    open spec fn spec_cast(self) -> Option<Arc<TestImpl>> {
        match self {
            AnyService::Test(service) => Some(service),
            _ => None,
        }
    }

    fn cast(self) -> (target: Option<Arc<TestImpl>>) {
        match self {
            AnyService::Test(service) => Some(service),
            _ => None,
        }
    }
}

impl Cast<AnyService> for Arc<Robot> {
    open spec fn spec_cast(self) -> Option<AnyService> {
        Some(AnyService::Robot(self))
    }

    fn cast(self) -> (target: Option<AnyService>) {
        Some(AnyService::Robot(self))
    }
}

impl Cast<Arc<Robot>> for AnyService {
    open spec fn spec_cast(self) -> Option<Arc<Robot>> {
        match self {
            AnyService::Robot(service) => Some(service),
            _ => None,
        }
    }

    fn cast(self) -> (target: Option<Arc<Robot>>) {
        match self {
            AnyService::Robot(service) => Some(service),
            _ => None,
        }
    }
}

/// A service cast to any service casts back to itself, and to nothing else.
pub proof fn law_cast_round_trip(test: Arc<TestImpl>, robot: Arc<Robot>)
    ensures
        test.spec_cast() matches Some(any) && Cast::<Arc<TestImpl>>::spec_cast(any) == Some(test)
            && Cast::<Arc<Robot>>::spec_cast(any) is None,
        robot.spec_cast() matches Some(any) && Cast::<Arc<Robot>>::spec_cast(any) == Some(robot)
            && Cast::<Arc<TestImpl>>::spec_cast(any) is None,
{
}

/// The step of a relayed message at position `current` of `path`: the
/// answer at the end of the path, the next module before it.
pub fn ask_path(path: &Vec<String>, answer: &String, current: usize) -> (step: Answer)
    requires
        current < path.len(),
    ensures
        current == path.len() - 1 ==> step == Answer::End(*answer),
        current < path.len() - 1 ==> step == Answer::Next(path[current + 1]),
{
    if current == path.len() - 1 {
        Answer::End(answer.clone())
    } else {
        Answer::Next(path[current + 1].clone())
    }
}

/// Follows `path` from position `current` to its end, step by step, and
/// returns the answer found there.
pub fn relay(path: &Vec<String>, answer: &String, current: usize) -> (found: String)
    requires
        current < path.len(),
    ensures
        found == *answer,
{
    let mut at = current;
    loop
        invariant
            at < path.len(),
        decreases path.len() - at,
    {
        match ask_path(path, answer, at) {
            Answer::End(found) => {
                return found;
            },
            Answer::Next(_) => {
                at = at + 1;
            },
        }
    }
}

/// The rows of a map, as plain values.
pub open spec fn spec_rows(map: AvailiableMap) -> Seq<Seq<usize>> {
    map@.map_values(|row: Vec<usize>| row@)
}

/// Makes a copy of a map.
pub fn copy_map(map: &AvailiableMap) -> (copy: AvailiableMap)
    ensures
        spec_rows(copy) == spec_rows(*map),
{
    let mut copy: Vec<Vec<usize>> = Vec::new();
    let mut i: usize = 0;
    while i < map.len()
        invariant
            i <= map@.len(),
            copy@.len() == i,
            forall|a: int| 0 <= a < i ==> (#[trigger] copy@[a])@ == map@[a]@,
        decreases map@.len() - i,
    {
        let mut row: Vec<usize> = Vec::new();
        let source = &map[i];
        let mut j: usize = 0;
        while j < source.len()
            invariant
                j <= source@.len(),
                row@.len() == j,
                forall|b: int| 0 <= b < j ==> (#[trigger] row@[b]) == source@[b],
            decreases source@.len() - j,
        {
            row.push(source[j]);
            j = j + 1;
        }
        assert(row@ =~= source@);
        copy.push(row);
        i = i + 1;
    }
    assert(spec_rows(copy) =~= spec_rows(*map));
    copy
}

/// A schedule that one taker at a time may hold.
pub struct ScheduleState {
    map: AvailiableMap,
    available: bool,
}

impl ScheduleState {
    /// The schedule kept.
    pub closed spec fn spec_map(&self) -> AvailiableMap {
        self.map
    }

    /// Whether the schedule may be taken.
    pub closed spec fn spec_available(&self) -> bool {
        self.available
    }

    /// Keeps `map`, free to be taken.
    pub fn new(map: AvailiableMap) -> (state: Self)
        ensures
            state.spec_map() == map,
            state.spec_available(),
    {
        ScheduleState { map, available: true }
    }

    /// Takes the schedule, which is then locked. While it is locked there is
    /// nothing to take, and the taker has to wait.
    pub fn get(&mut self) -> (taken: Option<AvailiableMap>)
        ensures
            taken is Some <==> old(self).spec_available(),
            taken matches Some(map) ==> spec_rows(map) == spec_rows(old(self).spec_map()),
            final(self).spec_map() == old(self).spec_map(),
            !final(self).spec_available(),
    {
        if self.available {
            self.available = false;
            Some(copy_map(&self.map))
        } else {
            None
        }
    }

    /// Puts a schedule back, which is then unlocked; one waiting taker may
    /// be woken.
    pub fn set(&mut self, s: AvailiableMap)
        ensures
            final(self).spec_map() == s,
            final(self).spec_available(),
    {
        self.map = s;
        self.available = true;
    }
}

} // verus!
