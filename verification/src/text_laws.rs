//! What the texts say that the service writes, and what destructors make of failures.

use vstd::prelude::*;

use crate::linux::runtime_error::RuntimeError;
use crate::linux::shm_allocator::Teardown;
use crate::linux::shm_teardown::{Conclusion, ShmTeardown, TeardownAction, TeardownEvent};
use crate::logger::{entry_at, log_file_name_at, LocalTime, Logger};
use crate::state::State;
use crate::teardown::{
    after_environment_drop, after_join, after_shutdown, first_panic_of, unmap_warning, Disposal,
};
use crate::text::{
    concat2, concat3, concat5, decimal, decimal_text, digit, join_path, padded,
};
use crate::util::{
    early_failure_line, get_optional_env_var, try_extract_error_message, warning_line, EnvReading,
    PanicPayload,
};

verus! {

/// Whether a text is made of decimal digits only.
pub open spec fn is_number(text: Seq<char>) -> bool {
    text.len() > 0 && forall|i: int| 0 <= i < text.len() ==> '0' <= #[trigger] text[i] <= '9'
}

/// The number that a text of decimal digits reads.
pub open spec fn number_in(text: Seq<char>) -> int
    decreases text.len(),
{
    if text.len() == 0 {
        0
    } else {
        10 * number_in(text.drop_last()) + (text.last() as int - '0' as int)
    }
}

proof fn lemma_decimal(n: nat)
    ensures
        is_number(decimal(n)),
        number_in(decimal(n)) == n,
        decimal(n).len() > 1 ==> decimal(n)[0] != '0',
        n > 0 ==> decimal(n)[0] != '0',
    decreases n,
{
    reveal_with_fuel(number_in, 2);
    if n >= 10 {
        lemma_decimal(n / 10);
        let head = decimal(n / 10);
        let all = decimal(n);
        assert(all == head.push(digit(n % 10)));
        assert(all.drop_last() =~= head);
        assert(all[0] == head[0]);
        assert forall|i: int| 0 <= i < all.len() implies '0' <= #[trigger] all[i] <= '9' by {
            if i < head.len() {
                assert(all[i] == head[i]);
            }
        }
    } else {
        assert(decimal(n).drop_last() =~= seq![]);
    }
}

/// A number is written in decimal digits, without leading zeros, and reads as what it is.
pub proof fn law_numbers_read_back(n: usize, r: String)
    requires
        call_ensures(decimal_text, (n,), r),
    ensures
        is_number(r@),
        number_in(r@) == n,
        r@.len() > 1 ==> r@[0] != '0',
{
    lemma_decimal(n as nat);
}

/// Zeros in front change nothing about a number.
proof fn lemma_zeros(zeros: nat, digits: Seq<char>)
    requires
        is_number(digits),
    ensures
        is_number(Seq::new(zeros, |i: int| '0') + digits),
        number_in(Seq::new(zeros, |i: int| '0') + digits) == number_in(digits),
    decreases zeros, digits.len(),
{
    let front = Seq::new(zeros, |i: int| '0');
    let all = front + digits;
    assert forall|i: int| 0 <= i < all.len() implies '0' <= #[trigger] all[i] <= '9' by {
        if i >= zeros {
            assert(all[i] == digits[i - zeros]);
        }
    }
    reveal_with_fuel(number_in, 2);
    assert(all.drop_last() =~= front + digits.drop_last());
    assert(all.last() == digits.last());
    if digits.len() > 1 {
        let less = digits.drop_last();
        assert forall|i: int| 0 <= i < less.len() implies '0' <= #[trigger] less[i] <= '9' by {
            assert(less[i] == digits[i]);
        }
        lemma_zeros(zeros, less);
    } else if zeros > 0 {
        assert(front + digits.drop_last() =~= Seq::new((zeros - 1) as nat, |i: int| '0') + seq!['0']);
        assert(is_number(seq!['0']));
        assert(seq!['0'].drop_last() =~= seq![]);
        lemma_zeros((zeros - 1) as nat, seq!['0']);
    }
}

/// A number that is filled up with zeros reads as what it is and has as many digits as it is meant to
/// have, and more only where it needs more.
pub proof fn law_padded_numbers_read_back(n: nat, width: nat)
    ensures
        is_number(padded(n, width)),
        number_in(padded(n, width)) == n,
        padded(n, width).len() >= width,
        padded(n, width).len() > width && padded(n, width).len() > 1 ==> padded(n, width)[0] != '0',
{
    lemma_decimal(n);
    if decimal(n).len() < width {
        lemma_zeros((width - decimal(n).len()) as nat, decimal(n));
    }
}

/// Texts in a row are the texts, each as it is and in its order, and nothing else.
pub proof fn law_rows_hold_their_texts(
    a: &str,
    b: &str,
    c: &str,
    d: &str,
    e: &str,
    two: String,
    three: String,
    five: String,
)
    requires
        call_ensures(concat2, (a, b), two),
        call_ensures(concat3, (a, b, c), three),
        call_ensures(concat5, (a, b, c, d, e), five),
    ensures
        two@.take(a@.len() as int) == a@,
        two@.skip(a@.len() as int) == b@,
        three@.take(two@.len() as int) == two@,
        three@.skip(two@.len() as int) == c@,
        five@.take(three@.len() as int) == three@,
        five@.skip(three@.len() as int).take(d@.len() as int) == d@,
        five@.skip(three@.len() as int).skip(d@.len() as int) == e@,
{
    assert(two@.take(a@.len() as int) =~= a@);
    assert(two@.skip(a@.len() as int) =~= b@);
    assert(three@.take(two@.len() as int) =~= two@);
    assert(three@.skip(two@.len() as int) =~= c@);
    assert(five@.take(three@.len() as int) =~= three@);
    assert(five@.skip(three@.len() as int).take(d@.len() as int) =~= d@);
    assert(five@.skip(three@.len() as int).skip(d@.len() as int) =~= e@);
}

/// A path always ends in the name. An absolute name is the whole path. Otherwise the path begins with
/// the directory, and exactly one separator stands in between, the directory's own or a new one; only
/// an empty directory adds nothing.
pub proof fn law_paths_are_joined(dir: &str, name: &str, r: String)
    requires
        call_ensures(join_path, (dir, name), r),
    ensures
        r@.skip(r@.len() - name@.len()) == name@,
        name@.len() > 0 && name@[0] == '/' ==> r@ == name@,
        !(name@.len() > 0 && name@[0] == '/') ==> {
            &&& dir@.is_prefix_of(r@)
            &&& dir@.len() == 0 ==> r@ == name@
            &&& dir@.len() > 0 ==> r@[r@.len() - name@.len() - 1] == '/'
            &&& dir@.len() > 0 && dir@.last() == '/' ==> r@.len() == dir@.len() + name@.len()
            &&& dir@.len() > 0 && dir@.last() != '/' ==> r@.len() == dir@.len() + name@.len() + 1
        },
{
    assert(r@.skip(r@.len() - name@.len()) =~= name@);
    if dir@.len() == 0 && !(name@.len() > 0 && name@[0] == '/') {
        assert(dir@ + name@ =~= name@);
    }
}

/// A line on the console holds the whole message behind the name of the service; a warning says that
/// it is one.
pub proof fn law_lines_hold_their_message(message: &str, warning: String, failure: String)
    requires
        call_ensures(warning_line, (message,), warning),
        call_ensures(early_failure_line, (message,), failure),
    ensures
        warning@.take(16) == "garnd: WARNING! "@,
        warning@.skip(16) == message@,
        failure@.take(7) == "garnd: "@,
        failure@.skip(7) == message@,
{
    reveal_strlit("garnd: WARNING! ");
    reveal_strlit("garnd: ");
    assert(warning@.take(16) =~= "garnd: WARNING! "@);
    assert(warning@.skip(16) =~= message@);
    assert(failure@.take(7) =~= "garnd: "@);
    assert(failure@.skip(7) =~= message@);
}

/// A variable that is set has its value, one that is not set has none, and one that is no text is an
/// error, which names the variable.
pub proof fn law_variables_are_read(
    name: &str,
    reading: EnvReading,
    r: Result<Option<String>, String>,
)
    requires
        call_ensures(get_optional_env_var, (name, reading), r),
    ensures
        reading matches EnvReading::Value(value) ==> (r matches Ok(Some(text)) && text@ == value@),
        reading is NotPresent <==> r == Ok::<Option<String>, String>(None),
        reading is NotUnicode <==> r is Err,
        r matches Err(message) ==> message@ == "environment variable '"@ + name@
            + "' is not a valid UTF8-string"@,
{
}

/// The message of a panic is the text that it carries, whatever form it has.
pub proof fn law_panics_tell_their_text(payload: PanicPayload<'_>, r: String)
    requires
        call_ensures(try_extract_error_message, (payload,), r),
    ensures
        payload matches PanicPayload::Str(text) ==> r@ == text@,
        payload matches PanicPayload::Text(text) ==> r@ == text@,
        payload matches PanicPayload::Other(debug) ==> r@ == debug@,
{
}

/// After a thread has been joined, a destructor is quiet exactly if the thread did not panic. It never
/// panics on a thread that is panicking already, but warns with the message of the panic; on any other
/// thread it panics.
pub proof fn law_joined_threads_do_not_panic_unnoticed(
    panic: Option<PanicPayload<'_>>,
    panicking: bool,
    r: Disposal,
    message: String,
)
    requires
        call_ensures(after_join, (panic, panicking), r),
        panic matches Some(payload) ==> call_ensures(
            try_extract_error_message,
            (payload,),
            message,
        ),
    ensures
        r is Quiet <==> panic is None,
        r is Panic <==> panic is Some && !panicking,
        r matches Disposal::Warn(warning) ==> warning@
            == "Joining thread in the destructor of JoinGuard failed: "@ + message@,
{
}

/// After an event has been triggered, a destructor is quiet exactly if that succeeded. It never panics
/// on a thread that is panicking already, but warns with the error; on any other thread it panics.
pub proof fn law_failed_signals_do_not_go_unnoticed(
    error: Option<&str>,
    panicking: bool,
    service: Disposal,
    environment: Disposal,
)
    requires
        call_ensures(after_shutdown, (error, panicking), service),
        call_ensures(after_environment_drop, (error, panicking), environment),
    ensures
        service is Quiet <==> error is None,
        service is Panic <==> error is Some && !panicking,
        service matches Disposal::Warn(warning) ==> (error matches Some(e) && warning@
            == "signaling welcome thread failed: "@ + e@),
        environment is Quiet <==> error is None,
        environment is Panic <==> error is Some && !panicking,
        environment matches Disposal::Warn(warning) ==> (error matches Some(e) && warning@
            == "Environment panicked while destructing: "@ + e@),
{
}

/// A page that could not be unmapped is told of with the whole error.
pub proof fn law_unmappings_tell_their_error(error: &str, r: String)
    requires
        call_ensures(unmap_warning, (error,), r),
    ensures
        r@.len() == 35 + error@.len(),
        r@.take(35) == "unmapping of shared memory failed: "@,
        r@.skip(35) == error@,
{
    reveal_strlit("unmapping of shared memory failed: ");
    assert(r@.take(35) =~= "unmapping of shared memory failed: "@);
    assert(r@.skip(35) =~= error@);
}

/// There is a panic to pass on exactly if there was one, and it is one that there was.
pub proof fn law_panics_are_passed_on<P>(outcomes: Seq<Result<(), P>>)
    ensures
        first_panic_of(outcomes) is None <==> forall|i: int|
            0 <= i < outcomes.len() ==> #[trigger] outcomes[i] is Ok,
        first_panic_of(outcomes) matches Some(panic) ==> exists|i: int|
            {
                &&& 0 <= i < outcomes.len()
                &&& #[trigger] outcomes[i] == Err::<(), P>(panic)
                &&& forall|k: int| 0 <= k < i ==> #[trigger] outcomes[k] is Ok
            },
    decreases outcomes.len(),
{
    if outcomes.len() > 0 && outcomes[0] is Ok {
        let rest = outcomes.drop_first();
        law_panics_are_passed_on(rest);
        assert forall|i: int| 0 <= i < rest.len() implies rest[i] == #[trigger] outcomes[i + 1] by {}
        if let Some(panic) = first_panic_of(rest) {
            let i = choose|i: int|
                {
                    &&& 0 <= i < rest.len()
                    &&& #[trigger] rest[i] == Err::<(), P>(panic)
                    &&& forall|k: int| 0 <= k < i ==> #[trigger] rest[k] is Ok
                };
            assert(outcomes[i + 1] == Err::<(), P>(panic));
            assert forall|k: int| 0 <= k < i + 1 implies #[trigger] outcomes[k] is Ok by {
                if k > 0 {
                    assert(rest[k - 1] is Ok);
                }
            }
        } else {
            assert forall|i: int| 0 <= i < outcomes.len() implies #[trigger] outcomes[i] is Ok by {
                if i > 0 {
                    assert(rest[i - 1] is Ok);
                }
            }
        }
    } else if outcomes.len() > 0 {
        assert(outcomes[0] == Err::<(), P>(outcomes[0]->Err_0));
    }
}

/// A teardown begins with everything still to be done: every resource of the plan, in its place and in
/// the order of the plan, and every page.
pub proof fn law_teardowns_begin<P>(plan: Teardown, r: ShmTeardown<P>)
    requires
        call_ensures(ShmTeardown::<P>::start, (plan,), r),
    ensures
        r@.places.len() == plan.destructions@.len(),
        forall|i: int|
            0 <= i < plan.destructions@.len() ==> (#[trigger] r@.places[i]).0
                == plan.destructions@[i].page && r@.places[i].1 == plan.destructions@[i].offset,
        r@.pages == plan.pages@.len(),
        r@.page_size == plan.page_size,
        r@.destroyed == 0,
        r@.unmapped == 0,
        r@.first_panic is None,
{
}

/// The resources are destroyed first, each in its turn and in its place; then the pages are unmapped,
/// each in its turn and over its whole length; and then the teardown ends.
pub proof fn law_teardowns_go_in_order<P>(teardown: &ShmTeardown<P>, action: TeardownAction)
    requires
        call_ensures(ShmTeardown::<P>::action, (teardown,), action),
    ensures
        match action {
            TeardownAction::Destroy { page, offset } => teardown@.destroyed < teardown@.places.len()
                && teardown@.places[teardown@.destroyed as int] == (page, offset),
            TeardownAction::Unmap { page, length } => teardown@.destroyed >= teardown@.places.len()
                && teardown@.unmapped < teardown@.pages && page == teardown@.unmapped as usize
                && length == teardown@.page_size,
            TeardownAction::Conclude => teardown@.destroyed >= teardown@.places.len()
                && teardown@.unmapped >= teardown@.pages,
        },
        forall|event: TeardownEvent<P>| #[trigger]
            teardown@.expects(event) <==> (action is Destroy && event is Destroyed) || (
            action is Unmap && event is Unmapped),
{
}

/// What has been done is counted, one at a time, whatever came of it. The first panic is kept, and no
/// other. Only an unmapping that failed is warned of, with its error.
pub proof fn law_teardowns_go_on<P>(
    teardown: ShmTeardown<P>,
    event: TeardownEvent<P>,
    r: (ShmTeardown<P>, Option<String>),
)
    requires
        call_ensures(ShmTeardown::<P>::next, (teardown, event), r),
    ensures
        r.0@.places == teardown@.places,
        r.0@.pages == teardown@.pages,
        r.0@.page_size == teardown@.page_size,
        r.0@.destroyed == teardown@.destroyed + if event is Destroyed {
            1int
        } else {
            0int
        },
        r.0@.unmapped == teardown@.unmapped + if event is Unmapped {
            1int
        } else {
            0int
        },
        teardown@.first_panic is Some ==> r.0@.first_panic == teardown@.first_panic,
        teardown@.first_panic is None ==> match event {
            TeardownEvent::Destroyed(Err(panic)) => r.0@.first_panic == Some(panic),
            _ => r.0@.first_panic is None,
        },
        match event {
            TeardownEvent::Unmapped(Err(e)) => r.1 matches Some(warning) && warning@
                == "unmapping of shared memory failed: "@ + e@,
            _ => r.1 is None,
        },
{
}

/// A teardown ends quietly exactly if nothing panicked. Otherwise the first panic goes on, or, on a
/// thread that is panicking already, there is a warning.
pub proof fn law_teardowns_end<P>(teardown: ShmTeardown<P>, panicking: bool, r: Conclusion<P>)
    requires
        teardown@.action() is Conclude,
        call_ensures(ShmTeardown::<P>::conclude, (teardown, panicking), r),
    ensures
        r is Quiet <==> teardown@.first_panic is None,
        r is Warn <==> teardown@.first_panic is Some && panicking,
        r matches Conclusion::Resume(panic) ==> teardown@.first_panic == Some(panic) && !panicking,
        r matches Conclusion::Warn(warning) ==> warning@
            == "ShmAllocator panicked while destructing"@,
{
}

/// The name of a log file holds its time, and so does an entry, which also holds the whole error and
/// ends its line.
pub proof fn law_the_log_tells_time_and_error(
    datetime: &str,
    error: &str,
    name: String,
    entry: String,
)
    requires
        call_ensures(log_file_name_at, (datetime,), name),
        call_ensures(entry_at, (datetime, error), entry),
    ensures
        name@.len() == datetime@.len() + 11,
        name@.take(7) == "errors_"@,
        name@.skip(7).take(datetime@.len() as int) == datetime@,
        name@.skip(7 + datetime@.len() as int) == ".log"@,
        entry@.len() == datetime@.len() + error@.len() + 4,
        entry@[0] == '[',
        entry@.skip(1).take(datetime@.len() as int) == datetime@,
        entry@[1 + datetime@.len() as int] == ']',
        entry@[2 + datetime@.len() as int] == ' ',
        entry@.skip(3 + datetime@.len() as int).take(error@.len() as int) == error@,
        entry@.last() == '\n',
{
    reveal_strlit("errors_");
    reveal_strlit(".log");
    reveal_strlit("[");
    reveal_strlit("] ");
    reveal_strlit("\n");
    assert(name@.take(7) =~= "errors_"@);
    assert(name@.skip(7).take(datetime@.len() as int) =~= datetime@);
    assert(name@.skip(7 + datetime@.len() as int) =~= ".log"@);
    assert(entry@.skip(1).take(datetime@.len() as int) =~= datetime@);
    assert(entry@.skip(3 + datetime@.len() as int).take(error@.len() as int) =~= error@);
}

/// A time in the log reads back: a year of four digits, month, day, hour, minute and second of two,
/// with their separators, and then the fraction of the second, to the millisecond in the name of a file
/// and to the microsecond in an entry. The seconds of a leap second go up to sixty.
pub proof fn law_times_read_back(t: LocalTime)
    requires
        t.wf(),
        0 <= t.year <= 9999,
    ensures
        1 <= t.month <= 12,
        1 <= t.day <= 31,
        0 <= t.hour < 24,
        0 <= t.minute < 60,
        0 <= t.second < 60,
        0 <= t.nanosecond < 2_000_000_000,
        ({
            let file = t.file_text();
            let entry = t.entry_text();
            let second = t.second + t.nanosecond / 1_000_000_000;
            &&& file.len() == 23
            &&& number_in(file.subrange(0, 4)) == t.year
            &&& file[4] == '-'
            &&& number_in(file.subrange(5, 7)) == t.month
            &&& file[7] == '-'
            &&& number_in(file.subrange(8, 10)) == t.day
            &&& file[10] == '_'
            &&& number_in(file.subrange(11, 13)) == t.hour
            &&& file[13] == ':'
            &&& number_in(file.subrange(14, 16)) == t.minute
            &&& file[16] == ':'
            &&& number_in(file.subrange(17, 19)) == second
            &&& file[19] == '.'
            &&& number_in(file.subrange(20, 23)) == t.nanosecond / 1_000_000 % 1_000
            &&& entry.len() == 26
            &&& entry.subrange(0, 10) == file.subrange(0, 10)
            &&& entry[10] == ' '
            &&& entry.subrange(11, 20) == file.subrange(11, 20)
            &&& number_in(entry.subrange(20, 26)) == t.nanosecond / 1_000 % 1_000_000
        }),
{
    let second = (t.second + t.nanosecond / 1_000_000_000) as nat;
    let y = padded(t.year as nat, 4);
    let mo = padded(t.month as nat, 2);
    let d = padded(t.day as nat, 2);
    let h = padded(t.hour as nat, 2);
    let mi = padded(t.minute as nat, 2);
    let s = padded(second, 2);
    let ms = padded((t.nanosecond / 1_000_000 % 1_000) as nat, 3);
    let us = padded((t.nanosecond / 1_000 % 1_000_000) as nat, 6);
    lemma_width(t.year as nat, 4);
    lemma_width(t.month as nat, 2);
    lemma_width(t.day as nat, 2);
    lemma_width(t.hour as nat, 2);
    lemma_width(t.minute as nat, 2);
    lemma_width(second, 2);
    lemma_width((t.nanosecond / 1_000_000 % 1_000) as nat, 3);
    lemma_width((t.nanosecond / 1_000 % 1_000_000) as nat, 6);
    let file = t.file_text();
    let entry = t.entry_text();
    assert(file.subrange(0, 4) =~= y);
    assert(file.subrange(5, 7) =~= mo);
    assert(file.subrange(8, 10) =~= d);
    assert(file.subrange(11, 13) =~= h);
    assert(file.subrange(14, 16) =~= mi);
    assert(file.subrange(17, 19) =~= s);
    assert(file.subrange(20, 23) =~= ms);
    assert(entry.subrange(20, 26) =~= us);
    assert(entry.subrange(0, 10) =~= file.subrange(0, 10));
    assert(entry.subrange(11, 20) =~= file.subrange(11, 20));
}

/// A year of other than four digits reads back, too, behind its sign.
pub proof fn law_far_years_read_back(t: LocalTime)
    requires
        t.year < 0 || t.year > 9999,
    ensures
        t.year_text().len() >= 5,
        t.year_text()[0] == if t.year < 0 {
            '-'
        } else {
            '+'
        },
        number_in(t.year_text().skip(1)) == if t.year < 0 {
            -t.year
        } else {
            t.year
        },
        t.date_text().take(t.year_text().len() as int) == t.year_text(),
{
    let year = (if t.year < 0 {
        -t.year
    } else {
        t.year
    }) as nat;
    law_padded_numbers_read_back(year, 4);
    assert(t.year_text().skip(1) =~= padded(year, 4));
    assert(t.date_text().take(t.year_text().len() as int) =~= t.year_text());
}

/// How many digits the small numbers have.
proof fn lemma_width(n: nat, width: nat)
    requires
        width == 2 && n < 100 || width == 3 && n < 1_000 || width == 4 && n < 10_000 || width == 6
            && n < 1_000_000,
    ensures
        padded(n, width).len() == width,
        number_in(padded(n, width)) == n,
{
    law_padded_numbers_read_back(n, width);
    reveal_with_fuel(decimal, 7);
}

/// The log is written to the file that it was made for.
pub proof fn law_the_log_keeps_its_file<W>(log_file: W, r: Logger<W>)
    requires
        call_ensures(Logger::<W>::new, (log_file,), r),
    ensures
        r.file() == log_file,
{
}

/// What is written to the log is one entry, with a time and the whole error, and it is written to the file of the
/// log and to no other.
pub proof fn law_errors_are_logged<W, R, F: FnOnce(&mut W, String) -> R>(
    logger: &mut Logger<W>,
    error: &str,
    write: F,
    r: R,
)
    requires
        call_ensures(Logger::<W>::log::<R, F>, (logger, error, write), r),
    ensures
        exists|t: LocalTime, file: &mut W, entry: String|
            {
                &&& #[trigger] t.wf()
                &&& #[trigger] call_ensures(write, (file, entry), r)
                &&& *file == old(logger).file()
                &&& *final(file) == final(logger).file()
                &&& entry@.len() == t.entry_text().len() + error@.len() + 4
                &&& entry@[0] == '['
                &&& entry@.subrange(1, 1 + t.entry_text().len() as int) == t.entry_text()
                &&& entry@[1 + t.entry_text().len() as int] == ']'
                &&& entry@[2 + t.entry_text().len() as int] == ' '
                &&& entry@.subrange(
                    entry@.len() - 1 - error@.len(),
                    entry@.len() - 1,
                ) == error@
                &&& entry@.last() == '\n'
            },
{
    reveal_strlit("[");
    reveal_strlit("] ");
    reveal_strlit("\n");
    let (t, file, entry) = choose|t: LocalTime, file: &mut W, entry: String|
        {
            &&& #[trigger] t.wf()
            &&& entry@ == "["@ + t.entry_text() + "] "@ + error@ + "\n"@
            &&& *file == old(logger).file()
            &&& *final(file) == final(logger).file()
            &&& #[trigger] call_ensures(write, (file, entry), r)
        };
    assert(entry@.subrange(1, 1 + t.entry_text().len() as int) =~= t.entry_text());
    assert(entry@.subrange(entry@.len() - 1 - error@.len(), entry@.len() - 1) =~= error@);
}

/// Whether two texts are the same but for one part each.
pub open spec fn differ_in(a: Seq<char>, part: Seq<char>, b: Seq<char>, other: Seq<char>) -> bool {
    exists|head: Seq<char>, tail: Seq<char>|
        a == #[trigger] (head + part + tail) && b == head + other + tail
}

/// Whether two texts are the same but for two parts each, in their order.
pub open spec fn differ_in_two(
    a: Seq<char>,
    first: Seq<char>,
    second: Seq<char>,
    b: Seq<char>,
    other_first: Seq<char>,
    other_second: Seq<char>,
) -> bool {
    exists|head: Seq<char>, middle: Seq<char>, tail: Seq<char>|
        a == #[trigger] (head + first + middle + second + tail) && b == head + other_first + middle
            + other_second + tail
}

/// The messages of two errors of the same kind differ exactly in what the errors hold: the directory,
/// its owner or its permissions, the name of a resource, the types, and the numbers, which are
/// written in decimal. Each message holds all of that, and as it is.
pub proof fn law_messages_hold_their_details(
    a: RuntimeError,
    b: RuntimeError,
    a_text: String,
    b_text: String,
)
    requires
        call_ensures(RuntimeError::message, (&a,), a_text),
        call_ensures(RuntimeError::message, (&b,), b_text),
    ensures
        match (a, b) {
            (
                RuntimeError::WorkingDirNonexistent { working_dir: x },
                RuntimeError::WorkingDirNonexistent { working_dir: y },
            ) => differ_in(a_text@, x@, b_text@, y@),
            (
                RuntimeError::WorkingDirNotADirectory { working_dir: x },
                RuntimeError::WorkingDirNotADirectory { working_dir: y },
            ) => differ_in(a_text@, x@, b_text@, y@),
            (
                RuntimeError::WorkingDirOwnedByWrongUser { working_dir: x, owner: p },
                RuntimeError::WorkingDirOwnedByWrongUser { working_dir: y, owner: q },
            ) => differ_in_two(a_text@, x@, p@, b_text@, y@, q@),
            (
                RuntimeError::WorkingDirOwnedByWrongGroup { working_dir: x, owner: p },
                RuntimeError::WorkingDirOwnedByWrongGroup { working_dir: y, owner: q },
            ) => differ_in_two(a_text@, x@, p@, b_text@, y@, q@),
            (
                RuntimeError::WorkingDirWrongPermissions { working_dir: x, permissions: p },
                RuntimeError::WorkingDirWrongPermissions { working_dir: y, permissions: q },
            ) => differ_in_two(a_text@, x@, p@, b_text@, y@, q@),
            (
                RuntimeError::WorkingDirSetUidBitSet { working_dir: x },
                RuntimeError::WorkingDirSetUidBitSet { working_dir: y },
            ) => differ_in(a_text@, x@, b_text@, y@),
            (
                RuntimeError::WorkingDirSetGidBitSet { working_dir: x },
                RuntimeError::WorkingDirSetGidBitSet { working_dir: y },
            ) => differ_in(a_text@, x@, b_text@, y@),
            (
                RuntimeError::WorkingDirStickyBitSet { working_dir: x },
                RuntimeError::WorkingDirStickyBitSet { working_dir: y },
            ) => differ_in(a_text@, x@, b_text@, y@),
            (
                RuntimeError::ResourceNameAlreadyInUse { resource_name: x },
                RuntimeError::ResourceNameAlreadyInUse { resource_name: y },
            ) => differ_in(a_text@, x@, b_text@, y@),
            (
                RuntimeError::ResourceAlignmentLargerThanPage { page_size: x, alignment: p },
                RuntimeError::ResourceAlignmentLargerThanPage { page_size: y, alignment: q },
            ) => differ_in_two(
                a_text@,
                decimal(x as nat),
                decimal(p as nat),
                b_text@,
                decimal(y as nat),
                decimal(q as nat),
            ),
            (
                RuntimeError::ResourceTooLargeForPage { page_size: x, size: p },
                RuntimeError::ResourceTooLargeForPage { page_size: y, size: q },
            ) => differ_in_two(
                a_text@,
                decimal(x as nat),
                decimal(p as nat),
                b_text@,
                decimal(y as nat),
                decimal(q as nat),
            ),
            (
                RuntimeError::ResourceTypeMismatch { requested_type: x, resource_type: p },
                RuntimeError::ResourceTypeMismatch { requested_type: y, resource_type: q },
            ) => differ_in_two(a_text@, x@, p@, b_text@, y@, q@),
            _ => true,
        },
{
    match (a, b) {
        (
            RuntimeError::WorkingDirOwnedByWrongUser { working_dir: x, owner: p },
            RuntimeError::WorkingDirOwnedByWrongUser { working_dir: y, owner: q },
        ) => {
            let head = "working directory (\""@;
            let middle = "\") is owned by the wrong user (required owner = "@
                + crate::constants::USER_NAME@ + ", actual owner = "@;
            let tail = ")"@;
            assert(a_text@ =~= head + x@ + middle + p@ + tail);
            assert(b_text@ =~= head + y@ + middle + q@ + tail);
        },
        (
            RuntimeError::WorkingDirOwnedByWrongGroup { working_dir: x, owner: p },
            RuntimeError::WorkingDirOwnedByWrongGroup { working_dir: y, owner: q },
        ) => {
            let head = "working directory (\""@;
            let middle = "\") is owned by the wrong group (required owner = "@
                + crate::constants::GROUP_NAME@ + ", actual owner = "@;
            let tail = ")"@;
            assert(a_text@ =~= head + x@ + middle + p@ + tail);
            assert(b_text@ =~= head + y@ + middle + q@ + tail);
        },
        _ => {},
    }
}

/// The name of a log file that is started now holds a time, and nothing else but what makes it the name
/// of a log file.
pub proof fn law_log_files_are_named_by_time<W>(r: String)
    requires
        call_ensures(Logger::<W>::log_file_name, (), r),
    ensures
        r@.len() >= 11,
        r@.take(7) == "errors_"@,
        r@.skip(r@.len() - 4) == ".log"@,
        exists|t: LocalTime| #[trigger] t.wf() && r@.subrange(7, r@.len() - 4) == t.file_text(),
{
    reveal_strlit("errors_");
    reveal_strlit(".log");
    let t = choose|t: LocalTime| #[trigger]
        t.wf() && r@ == "errors_"@ + t.file_text() + ".log"@;
    assert(r@.take(7) =~= "errors_"@);
    assert(r@.skip(r@.len() - 4) =~= ".log"@);
    assert(r@.subrange(7, r@.len() - 4) =~= t.file_text());
}

/// What a state is made of is what it holds.
pub proof fn law_states_hold_what_they_are_given(run_dir: &str, sock_name: &str, r: State)
    requires
        call_ensures(State::new, (run_dir, sock_name), r),
    ensures
        r.run_dir@ == run_dir@,
        r.welcome_sock_name@ == sock_name@,
{
}

/// Every text can be written, joined and told, whatever it is.
pub proof fn law_every_text_will_do(
    n: usize,
    a: &str,
    b: &str,
    reading: EnvReading,
    payload: PanicPayload<'_>,
    panic: Option<PanicPayload<'_>>,
    error: Option<&str>,
    panicking: bool,
    e: RuntimeError,
)
    ensures
        call_requires(decimal_text, (n,)),
        call_requires(concat2, (a, b)),
        call_requires(join_path, (a, b)),
        call_requires(warning_line, (a,)),
        call_requires(early_failure_line, (a,)),
        call_requires(get_optional_env_var, (a, reading)),
        call_requires(try_extract_error_message, (payload,)),
        call_requires(after_join, (panic, panicking)),
        call_requires(after_shutdown, (error, panicking)),
        call_requires(after_environment_drop, (error, panicking)),
        call_requires(unmap_warning, (a,)),
        call_requires(log_file_name_at, (a,)),
        call_requires(entry_at, (a, b)),
        call_requires(RuntimeError::message, (&e,)),
{
}

/// A teardown takes the outcome of the action that it names, whatever the outcome is, and can end where
/// nothing is left to be done.
pub proof fn law_teardowns_take_every_outcome<P>(
    plan: Teardown,
    teardown: ShmTeardown<P>,
    action: TeardownAction,
    event: TeardownEvent<P>,
    panicking: bool,
)
    requires
        call_ensures(ShmTeardown::<P>::action, (&teardown,), action),
    ensures
        call_requires(ShmTeardown::<P>::start, (plan,)),
        call_requires(ShmTeardown::<P>::action, (&teardown,)),
        action is Destroy && event is Destroyed ==> call_requires(
            ShmTeardown::<P>::next,
            (teardown, event),
        ),
        action is Unmap && event is Unmapped ==> call_requires(
            ShmTeardown::<P>::next,
            (teardown, event),
        ),
        action is Conclude ==> call_requires(ShmTeardown::<P>::conclude, (teardown, panicking)),
{
}

} // verus!
