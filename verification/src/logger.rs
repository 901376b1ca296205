//! The logging configuration: a minimum level and a logger factory, the rule
//! that renders or suppresses an event, and the lock-guarded store that shares
//! one such pair between all callers.
//!
//! The rule and the configuration are stated exactly, over [`rendered`] and
//! [`ConfigView`]. The store is shared between threads: what one of its
//! operations finds behind the lock depends on the other holders. So each
//! operation states that it succeeds exactly when taking the lock of the
//! store does, and that its result is what the function that does the work
//! gives for what was found; that function is stated exactly.

use vstd::prelude::*;
use vstd::string::*;
use std::collections::HashMap;
use std::sync::{Mutex, MutexGuard, PoisonError};
use crate::errors::LockError;
use crate::level::Level;
use crate::level::passes;
use crate::lock::guarded;
use crate::lock::guarded_mut;
use time::Tm;

verus! {

/// The text of a message that may be missing: the empty text where it is.
pub open spec fn text_or_empty(message: Option<Seq<char>>) -> Seq<char> {
    match message {
        Some(text) => text,
        None => Seq::empty(),
    }
}

/// What a formatter hands to the sink for one event: the message as it is when
/// the event passes the threshold and carries a message, the empty text
/// otherwise.
pub open spec fn rendered(level: Level, threshold: Level, message: Option<Seq<char>>) -> Seq<char> {
    if passes(level, threshold) {
        text_or_empty(message)
    } else {
        Seq::empty()
    }
}

/// The text of an optional message.
pub open spec fn message_text(message: Option<&str>) -> Option<Seq<char>> {
    match message {
        Some(text) => Some(text@),
        None => None,
    }
}

/// Renders one event against a given threshold.
pub fn render(level: Level, threshold: Level, message: Option<&str>) -> (r: String)
    ensures
        r@ == rendered(level, threshold, message_text(message)),
{
    if level.passes(threshold) {
        match message {
            Some(text) => text.to_owned(),
            None => String::new(),
        }
    } else {
        String::new()
    }
}

/// One of the loggers that `factory` can build.
pub open spec fn built_by<L, F: Fn() -> L>(factory: F, logger: L) -> bool {
    call_ensures(factory, (), logger)
}

/// One of the loggers that some factory of type `F` can build.
pub open spec fn built_by_some<L, F: Fn() -> L>(logger: L) -> bool {
    exists|factory: F| built_by(factory, logger)
}

/// One of the texts that an event can render to: what it renders to under
/// some threshold.
pub open spec fn rendered_under_some(
    level: Level,
    message: Option<Seq<char>>,
    text: Seq<char>,
) -> bool {
    exists|threshold: Level| text == #[trigger] rendered(level, threshold, message)
}

/// The mathematical content of a configuration: the active pair.
pub struct ConfigView<F> {
    pub level: Level,
    pub factory: F,
}

impl<F> ConfigView<F> {
    /// The pair that a configuration starts with: minimum level `Info`.
    pub open spec fn initial(factory: F) -> Self {
        ConfigView { level: Level::Info, factory }
    }

    /// The pair after the level was overwritten.
    pub open spec fn with_level(self, level: Level) -> Self {
        ConfigView { level, factory: self.factory }
    }

    /// The pair after the factory was replaced.
    pub open spec fn with_factory(self, factory: F) -> Self {
        ConfigView { level: self.level, factory }
    }

    /// The pair after each level of `levels` was written in turn.
    pub open spec fn with_levels(self, levels: Seq<Level>) -> Self
        decreases levels.len(),
    {
        if levels.len() == 0 {
            self
        } else {
            self.with_levels(levels.drop_last()).with_level(levels.last())
        }
    }

    /// What an event of severity `level` renders to under this pair.
    pub open spec fn shows(self, level: Level, message: Option<Seq<char>>) -> Seq<char> {
        rendered(level, self.level, message)
    }
}

/// An event is rendered to its message or to the empty text, and to nothing
/// else; an event of severity `Error` passes every threshold.
pub proof fn law_rendering_is_message_or_empty(
    level: Level,
    threshold: Level,
    message: Option<Seq<char>>,
)
    ensures
        rendered(level, threshold, message) == text_or_empty(message) || rendered(
            level,
            threshold,
            message,
        ) == Seq::<char>::empty(),
        rendered(Level::Error, threshold, message) == text_or_empty(message),
        rendered(level, threshold, None) == Seq::<char>::empty(),
{
}

/// After the minimum level was set to a level, an event of that very level
/// is rendered to its message, letter for letter.
pub proof fn law_event_at_the_configured_level_is_shown<F>(
    config: ConfigView<F>,
    level: Level,
    message: Seq<char>,
)
    ensures
        config.with_level(level).shows(level, Some(message)) == message,
{
}

/// An event that is less severe than the minimum level is rendered to the
/// empty text, whatever its message.
pub proof fn law_event_below_the_threshold_is_suppressed<F>(
    config: ConfigView<F>,
    level: Level,
    message: Option<Seq<char>>,
)
    requires
        level.rank() > config.level.rank(),
    ensures
        config.shows(level, message) == Seq::<char>::empty(),
{
}

/// Replacing the factory changes which factory builds the loggers to come and
/// nothing else: the minimum level stays, every event is rendered as before,
/// and a later change of the level decides the rendering as if the factory had
/// never been replaced.
pub proof fn law_factory_change_leaves_filtering_alone<L, F: Fn() -> L>(
    config: ConfigView<F>,
    factory: F,
    later: Level,
    level: Level,
    message: Option<Seq<char>>,
    logger: L,
)
    ensures
        config.with_factory(factory).level == config.level,
        config.with_factory(factory).shows(level, message) == config.shows(level, message),
        config.with_factory(factory).with_level(later).shows(level, message) == rendered(
            level,
            later,
            message,
        ),
        config.with_level(later).factory == config.factory,
        built_by(config.with_factory(factory).factory, logger) <==> built_by(factory, logger),
{
}

/// Writes of the level that are made one after another, in whatever order the
/// lock admits them, leave the level of the last write and the factory that
/// was there before: one of the written values, never a mix of two pairs.
pub proof fn law_last_level_written_wins<F>(config: ConfigView<F>, levels: Seq<Level>)
    ensures
        config.with_levels(levels).factory == config.factory,
        levels.len() == 0 ==> config.with_levels(levels) == config,
        levels.len() > 0 ==> config.with_levels(levels).level == levels.last(),
        levels.len() > 0 ==> levels.contains(config.with_levels(levels).level),
    decreases levels.len(),
{
    if levels.len() > 0 {
        law_last_level_written_wins(config, levels.drop_last());
        assert(levels[levels.len() - 1] == levels.last());
    }
}

/// The initial configuration shows an event of severity `Info` and
/// suppresses one of severity `Debug`.
pub proof fn law_initial_configuration_shows_info_and_not_debug<F>(
    factory: F,
    message: Seq<char>,
)
    ensures
        ConfigView::initial(factory).shows(Level::Info, Some(message)) == message,
        ConfigView::initial(factory).shows(Level::Debug, Some(message)) == Seq::<char>::empty(),
{
}

/// What can serve as a logger factory. Every callable without arguments is
/// one; it is ready when it may be called.
pub trait LoggerFactory {
    /// The factory may be called.
    spec fn ready(&self) -> bool;
}

impl<L, F: Fn() -> L> LoggerFactory for F {
    open spec fn ready(&self) -> bool {
        call_requires(*self, ())
    }
}

/// A logging configuration: the minimum level and the factory that builds the
/// loggers. A factory that is part of a configuration may always be called.
pub struct LogConfig<F: LoggerFactory> {
    level: Level,
    factory: F,
}

impl<F: LoggerFactory> View for LogConfig<F> {
    type V = ConfigView<F>;

    closed spec fn view(&self) -> ConfigView<F> {
        ConfigView { level: self.level, factory: self.factory }
    }
}

impl<F: LoggerFactory> LogConfig<F> {
    #[verifier::type_invariant]
    spec fn callable(self) -> bool {
        self.factory.ready()
    }
}

impl<L, F: Fn() -> L> LogConfig<F> {
    /// The initial configuration: minimum level `Info` and the given factory.
    pub fn new(factory: F) -> (r: Self)
        requires
            call_requires(factory, ()),
        ensures
            r@ == ConfigView::initial(factory),
    {
        LogConfig { level: Level::Info, factory }
    }

    /// The minimum level.
    pub fn level(&self) -> (r: Level)
        ensures
            r == self@.level,
    {
        self.level
    }

    /// Overwrites the minimum level and leaves the factory as it is.
    pub fn set_level(&mut self, level: Level)
        ensures
            final(self)@ == old(self)@.with_level(level),
    {
        proof {
            use_type_invariant(&*self);
        }
        self.level = level;
    }

    /// Replaces the factory and leaves the minimum level as it is.
    pub fn set_factory(&mut self, factory: F)
        requires
            call_requires(factory, ()),
        ensures
            final(self)@ == old(self)@.with_factory(factory),
    {
        self.factory = factory;
    }

    /// Builds a logger with the factory that is configured now.
    pub fn build_logger(&self) -> (r: L)
        ensures
            built_by(self@.factory, r),
    {
        proof {
            use_type_invariant(self);
        }
        (self.factory)()
    }

    /// Renders one event against the minimum level that is configured now.
    pub fn log_format(&self, level: Level, message: Option<&str>) -> (r: String)
        ensures
            r@ == self@.shows(level, message_text(message)),
    {
        render(level, self.level, message)
    }
}

/// The shared configuration: one pair of minimum level and factory behind one
/// lock. Every operation takes the lock for the time of one read or one
/// write, so no caller sees a pair that is half written.
#[verifier::reject_recursive_types(F)]
pub struct LogConfigStore<F: LoggerFactory> {
    cell: Mutex<LogConfig<F>>,
}

impl<F: LoggerFactory> LogConfigStore<F> {
    /// The lock of the store, with the configuration behind it.
    pub closed spec fn lock_of(self) -> Mutex<LogConfig<F>> {
        self.cell
    }
}

impl<L, F: Fn() -> L> LogConfigStore<F> {
    /// A store that holds the initial configuration: its lock is a new mutex
    /// made of a configuration with minimum level `Info` and the given
    /// factory.
    pub fn new(factory: F) -> (r: Self)
        requires
            call_requires(factory, ()),
        ensures
            exists|config: LogConfig<F>|
                config@ == ConfigView::initial(factory) && call_ensures(
                    Mutex::<LogConfig<F>>::new,
                    (config,),
                    r.lock_of(),
                ),
    {
        LogConfigStore { cell: Mutex::new(LogConfig::new(factory)) }
    }
}

/// Builds a logger with the factory that the store holds at the time of the
/// call. The factory runs while the lock is held, so it must not use the same
/// store itself. Fails exactly when taking the lock of the store fails, which
/// is when the lock is poisoned. The result is what [`build_with`] gives for
/// what was found behind the lock.
pub fn get_logger<L, F: Fn() -> L>(store: &LogConfigStore<F>) -> (r: Result<L, LockError>)
    ensures
        exists|locked: Result<MutexGuard<'_, LogConfig<F>>, PoisonError<MutexGuard<'_, LogConfig<F>>>>|
            call_ensures(Mutex::<LogConfig<F>>::lock, (&store.lock_of(),), locked) && (r is Ok
                <==> locked is Ok),
        exists|found: Result<&LogConfig<F>, LockError>|
            call_ensures(build_with::<L, F>, (found,), r),
        r matches Ok(logger) ==> built_by_some::<L, F>(logger),
{
    let locked = store.cell.lock();
    let ghost taken = locked;
    let found = found_behind(&locked);
    let built = build_with(found);
    proof {
        if found is Ok {
            assert(built_by(found->Ok_0@.factory, built->Ok_0));
        }
        assert(call_ensures(Mutex::<LogConfig<F>>::lock, (&store.lock_of(),), taken) && (built is Ok
            <==> taken is Ok));
    }
    built
}

/// Overwrites the minimum level of the store and leaves its factory as it
/// is. Fails exactly when taking the lock of the store fails, which is when
/// the lock is poisoned. The write and the result are those of
/// [`store_level`], made on what was found behind the lock.
pub fn set_logger_level<L, F: Fn() -> L>(store: &LogConfigStore<F>, level: Level) -> (r: Result<
    (),
    LockError,
>)
    ensures
        exists|locked: Result<MutexGuard<'_, LogConfig<F>>, PoisonError<MutexGuard<'_, LogConfig<F>>>>|
            call_ensures(Mutex::<LogConfig<F>>::lock, (&store.lock_of(),), locked) && (r is Ok
                <==> locked is Ok),
        exists|found: Result<&mut LogConfig<F>, LockError>|
            call_ensures(store_level::<L, F>, (found, level), r),
{
    let mut locked = store.cell.lock();
    let ghost taken = locked;
    let found = found_behind_mut(&mut locked);
    let written = store_level(found, level);
    proof {
        assert(call_ensures(Mutex::<LogConfig<F>>::lock, (&store.lock_of(),), taken) && (written is Ok
            <==> taken is Ok));
    }
    written
}

/// Replaces the factory of the store and leaves its minimum level as it is.
/// Loggers that were built before are not touched. Fails exactly when taking
/// the lock of the store fails, which is when the lock is poisoned.
///
/// Like every operation on the store, this one takes the lock, hands what it
/// finds behind it to the function that does the work, here
/// [`store_factory`], and releases the lock when it returns. What that
/// function does is stated exactly, for a configuration and for a failed lock.
pub fn set_logger<L, F: Fn() -> L>(store: &LogConfigStore<F>, factory: F) -> (r: Result<
    (),
    LockError,
>)
    requires
        call_requires(factory, ()),
    ensures
        exists|locked: Result<MutexGuard<'_, LogConfig<F>>, PoisonError<MutexGuard<'_, LogConfig<F>>>>|
            call_ensures(Mutex::<LogConfig<F>>::lock, (&store.lock_of(),), locked) && (r is Ok
                <==> locked is Ok),
        exists|found: Result<&mut LogConfig<F>, LockError>|
            call_ensures(store_factory::<L, F>, (found, factory), r),
{
    let mut locked = store.cell.lock();
    let ghost taken = locked;
    let found = found_behind_mut(&mut locked);
    let written = store_factory(found, factory);
    proof {
        assert(call_ensures(Mutex::<LogConfig<F>>::lock, (&store.lock_of(),), taken) && (written is Ok
            <==> taken is Ok));
    }
    written
}

/// `time::Tm`, the broken-down time that an event is stamped with, carried as
/// an opaque value: the formatter takes it and never reads it.
#[verifier::external_type_specification]
#[verifier::external_body]
pub struct ExTm(Tm);

/// The formatter that every logger of this library is wired with. It keeps a
/// handle to the store, not a copy of the level, so a change of the minimum
/// level reaches loggers that were built before the change.
///
/// The level is read when an event is formatted, not when the logger is
/// built: filtering happens at the formatter, and the logger itself is always
/// called. So a threshold that is changed later also holds for the loggers
/// that are in use already.
#[verifier::reject_recursive_types(F)]
pub struct PupFormatter<'a, F: LoggerFactory> {
    store: &'a LogConfigStore<F>,
}

impl<'a, L, F: Fn() -> L> PupFormatter<'a, F> {
    /// A formatter that reads the minimum level from `store`.
    pub fn new(store: &'a LogConfigStore<F>) -> (r: Self)
        ensures
            r.store() == store,
    {
        PupFormatter { store }
    }

    /// The store that this formatter reads.
    pub closed spec fn store(self) -> &'a LogConfigStore<F> {
        self.store
    }

    /// Renders one event against the minimum level that the store holds at
    /// the time of the call: the result is what some threshold yields, so it is
    /// the message or the empty text, and an event that passes every threshold
    /// is never suppressed. The structured properties of the event are
    /// accepted and not rendered, and so is its timestamp. Fails exactly when
    /// taking the lock of the store fails, which is when the lock is poisoned.
    /// The result is what [`render_with`] gives for what was found behind the
    /// lock.
    pub fn log_format(
        &self,
        level: Level,
        _timestamp: Tm,
        message: Option<&str>,
        _properties: Option<HashMap<&str, &str>>,
    ) -> (r: Result<String, LockError>)
        ensures
            exists|locked: Result<MutexGuard<'_, LogConfig<F>>, PoisonError<MutexGuard<'_, LogConfig<F>>>>|
                call_ensures(Mutex::<LogConfig<F>>::lock, (&self.store().lock_of(),), locked) && (r is Ok
                    <==> locked is Ok),
            exists|found: Result<&LogConfig<F>, LockError>|
                call_ensures(render_with::<L, F>, (found, level, message), r),
            r matches Ok(text) ==> rendered_under_some(level, message_text(message), text@),
    {
        let locked = self.store.cell.lock();
        let ghost taken = locked;
        let found = found_behind(&locked);
        let text = render_with(found, level, message);
        proof {
            if found is Ok {
                assert(text->Ok_0@ == rendered(
                    level,
                    found->Ok_0@.level,
                    message_text(message),
                ));
            }
            assert(call_ensures(Mutex::<LogConfig<F>>::lock, (&self.store().lock_of(),), taken) && (text is Ok
                <==> taken is Ok));
        }
        text
    }
}

/// What a taken lock gives to read: the configuration behind it, or the
/// failure of a lock that is poisoned.
fn found_behind<'g, 'a, F: LoggerFactory>(
    locked: &'g Result<MutexGuard<'a, LogConfig<F>>, PoisonError<MutexGuard<'a, LogConfig<F>>>>,
) -> (r: Result<&'g LogConfig<F>, LockError>)
    ensures
        r is Ok <==> locked is Ok,
{
    match locked {
        Ok(guard) => Ok(guarded(guard)),
        Err(_) => Err(LockError),
    }
}

/// What a taken lock gives to change: the configuration behind it, or the
/// failure of a lock that is poisoned.
fn found_behind_mut<'g, 'a, F: LoggerFactory>(
    locked: &'g mut Result<
        MutexGuard<'a, LogConfig<F>>,
        PoisonError<MutexGuard<'a, LogConfig<F>>>,
    >,
) -> (r: Result<&'g mut LogConfig<F>, LockError>)
    ensures
        r is Ok <==> *old(locked) is Ok,
{
    match locked {
        Ok(guard) => Ok(guarded_mut(guard)),
        Err(_) => Err(LockError),
    }
}

/// Builds a logger from what was found behind the lock: with the factory of
/// the configuration that was found, or not at all where the lock had failed.
pub fn build_with<L, F: Fn() -> L>(found: Result<&LogConfig<F>, LockError>) -> (r: Result<
    L,
    LockError,
>)
    ensures
        r is Ok <==> found is Ok,
        found matches Ok(config) ==> built_by(config@.factory, r->Ok_0),
{
    match found {
        Ok(config) => Ok(config.build_logger()),
        Err(failure) => Err(failure),
    }
}

/// Renders one event against what was found behind the lock: against the
/// minimum level of the configuration that was found, or not at all where the
/// lock had failed.
pub fn render_with<L, F: Fn() -> L>(
    found: Result<&LogConfig<F>, LockError>,
    level: Level,
    message: Option<&str>,
) -> (r: Result<String, LockError>)
    ensures
        r is Ok <==> found is Ok,
        found matches Ok(config) ==> r->Ok_0@ == config@.shows(level, message_text(message)),
{
    match found {
        Ok(config) => Ok(config.log_format(level, message)),
        Err(failure) => Err(failure),
    }
}

/// Writes the minimum level into what was found behind the lock: the
/// configuration that was found has the new level and its old factory
/// afterwards; where the lock had failed, nothing is written.
pub fn store_level<L, F: Fn() -> L>(found: Result<&mut LogConfig<F>, LockError>, level: Level) -> (r:
    Result<(), LockError>)
    ensures
        r is Ok <==> found is Ok,
        found matches Ok(config) ==> final(config)@ == config@.with_level(level),
{
    match found {
        Ok(config) => {
            config.set_level(level);
            Ok(())
        },
        Err(failure) => Err(failure),
    }
}

/// Writes the factory into what was found behind the lock: the configuration
/// that was found has the new factory and its old minimum level afterwards;
/// where the lock had failed, nothing is written.
pub fn store_factory<L, F: Fn() -> L>(found: Result<&mut LogConfig<F>, LockError>, factory: F) -> (r:
    Result<(), LockError>)
    requires
        call_requires(factory, ()),
    ensures
        r is Ok <==> found is Ok,
        found matches Ok(config) ==> final(config)@ == config@.with_factory(factory),
{
    match found {
        Ok(config) => {
            config.set_factory(factory);
            Ok(())
        },
        Err(failure) => Err(failure),
    }
}

} // verus!
