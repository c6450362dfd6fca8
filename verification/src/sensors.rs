//! Which sensors of the hardware monitoring service are listed as fans, said of the texts
//! themselves.
use vstd::prelude::*;

use crate::fan::{lemma_pumps_among_fans, FanMode, FanType, FanView};
use crate::readings::{lemma_marked, marked};
use crate::text::{digits, has_part, lower, lowered, stands_at};
use crate::wmi::{
    duty_of, is_gpu, is_gpu_type, is_listed, is_pump_name, listing, rows, service_fans, LhmControl,
    LhmHardware, LhmSensor, LhmTables,
};

verus! {

/// Whether two characters are the same but perhaps for the case of an ASCII letter.
pub open spec fn same_letter(a: char, b: char) -> bool {
    ||| a == b
    ||| 'a' <= a <= 'z' && b as int == a as int - 32
    ||| 'a' <= b <= 'z' && a as int == b as int - 32
}

/// Whether two texts are the same but perhaps for the case of ASCII letters.
pub open spec fn same_text(a: Seq<char>, b: Seq<char>) -> bool {
    a.len() == b.len() && forall|i: int| 0 <= i < a.len() ==> same_letter(#[trigger] a[i], b[i])
}

/// Whether a word stands somewhere in a text, in whatever case.
pub open spec fn speaks_of(text: Seq<char>, word: Seq<char>) -> bool {
    exists|from: int|
        0 <= from <= text.len() - word.len() && same_text(
            #[trigger] text.subrange(from, from + word.len()),
            word,
        )
}

/// Whether a row of the hardware table is a graphics card.
pub open spec fn is_card(row: LhmHardware) -> bool {
    ||| speaks_of(row.hw_type@, seq!['g', 'p', 'u'])
    ||| speaks_of(row.hw_type@, seq!['n', 'v', 'i', 'd', 'i', 'a'])
    ||| speaks_of(row.hw_type@, seq!['a', 't', 'i'])
}

/// Whether a sensor belongs to a graphics card of the table.
pub open spec fn is_of_card(hardware: Seq<LhmHardware>, sensor: LhmSensor) -> bool {
    exists|i: int|
        0 <= i < hardware.len() && is_card(#[trigger] hardware[i]) && same_text(
            hardware[i].identifier@,
            sensor.parent@,
        )
}

/// Whether a sensor's name is that of a pump.
pub open spec fn is_pump_sensor(sensor: LhmSensor) -> bool {
    ||| speaks_of(sensor.name@, seq!['p', 'u', 'm', 'p'])
    ||| speaks_of(sensor.name@, seq!['a', 'i', 'o'])
    ||| speaks_of(sensor.name@, seq!['w', 'a', 't', 'e', 'r'])
}

/// Whether `pct` is the duty cycle that the controls show for a sensor: that of the first control
/// with the same parent, at most 100.
pub open spec fn is_duty_for(
    controls: Seq<LhmControl>,
    sensor: LhmSensor,
    pct: Option<u8>,
) -> bool {
    match pct {
        None => forall|i: int|
            0 <= i < controls.len() ==> !same_text(
                (#[trigger] controls[i]).parent@,
                sensor.parent@,
            ),
        Some(p) => exists|i: int|
            {
                &&& 0 <= i < controls.len()
                &&& same_text((#[trigger] controls[i]).parent@, sensor.parent@)
                &&& p == if controls[i].duty > 100 {
                    100
                } else {
                    controls[i].duty
                }
                &&& no_earlier(controls, sensor, i)
            },
    }
}

/// Whether no control before the one at `i` has the sensor's parent.
pub open spec fn no_earlier(controls: Seq<LhmControl>, sensor: LhmSensor, i: int) -> bool {
    forall|j: int|
        0 <= j < i ==> !same_text((#[trigger] controls[j]).parent@, sensor.parent@)
}

/// Whether entry `k` of a list is that of a sensor.
pub open spec fn is_entry_of(
    controls: Seq<LhmControl>,
    fans: Seq<FanView>,
    k: int,
    sensor: LhmSensor,
) -> bool {
    let f = fans[k];
    &&& f.id == "wmi:"@ + sensor.identifier@
    &&& f.is_pump == is_pump_sensor(sensor)
    &&& f.label == (if f.is_pump {
        "Pump "@ + digits(marked(fans.take(k + 1), true))
    } else {
        "Fan "@ + digits(marked(fans.take(k + 1), false))
    })
    &&& f.rpm == Some(sensor.rpm)
    &&& is_duty_for(controls, sensor, f.speed_pct)
    &&& f.fan_type == FanType::System
    &&& f.mode == FanMode::Auto
    &&& f.temperature is None
    &&& f.rpm_min is None
    &&& f.rpm_max is None
    &&& !f.controllable
}

/// Whether the list holds the sensors that turn and belong to no graphics card, each once and in
/// order, and no others. `numbers` are their places in the table.
pub open spec fn lists_sensors(
    hardware: Seq<LhmHardware>,
    controls: Seq<LhmControl>,
    sensors: Seq<LhmSensor>,
    fans: Seq<FanView>,
    numbers: Seq<int>,
) -> bool {
    &&& numbers.len() == fans.len()
    &&& forall|i: int, j: int| 0 <= i < j < numbers.len() ==> numbers[i] < numbers[j]
    &&& forall|k: int|
        #![trigger numbers[k]]
        0 <= k < numbers.len() ==> {
            &&& 0 <= numbers[k] < sensors.len()
            &&& sensors[numbers[k]].rpm > 0
            &&& !is_of_card(hardware, sensors[numbers[k]])
            &&& is_entry_of(controls, fans, k, sensors[numbers[k]])
        }
    &&& forall|n: int|
        0 <= n < sensors.len() && (#[trigger] sensors[n]).rpm > 0 && !is_of_card(
            hardware,
            sensors[n],
        ) ==> numbers.contains(n)
}

/// Whether a list is that of the sensors which turn and belong to no graphics card.
pub open spec fn is_list_of_sensors(
    hardware: Seq<LhmHardware>,
    controls: Seq<LhmControl>,
    sensors: Seq<LhmSensor>,
    fans: Seq<FanView>,
) -> bool {
    exists|numbers: Seq<int>| #[trigger]
        lists_sensors(hardware, controls, sensors, fans, numbers)
}

proof fn lemma_lower(a: char, b: char)
    ensures
        lower(a) == lower(b) <==> same_letter(a, b),
{
}

proof fn lemma_same_text(a: Seq<char>, b: Seq<char>)
    ensures
        lowered(a) == lowered(b) <==> same_text(a, b),
{
    if same_text(a, b) {
        assert forall|i: int| 0 <= i < a.len() implies lowered(a)[i] == lowered(b)[i] by {
            lemma_lower(a[i], b[i]);
        }
        assert(lowered(a) =~= lowered(b));
    }
    if lowered(a) == lowered(b) {
        assert(lowered(a).len() == a.len() && lowered(b).len() == b.len());
        assert forall|i: int| 0 <= i < a.len() implies same_letter(#[trigger] a[i], b[i]) by {
            assert(lowered(a)[i] == lowered(b)[i]);
            lemma_lower(a[i], b[i]);
        }
    }
}

proof fn lemma_speaks_of(text: Seq<char>, word: Seq<char>)
    requires
        lowered(word) == word,
    ensures
        has_part(lowered(text), word) <==> speaks_of(text, word),
{
    let t = lowered(text);
    if has_part(t, word) {
        let from = choose|from: int| stands_at(t, from, word);
        let part = text.subrange(from, from + word.len());
        assert(lowered(part) =~= t.subrange(from, from + word.len()));
        lemma_same_text(part, word);
    }
    if speaks_of(text, word) {
        let from = choose|from: int|
            0 <= from <= text.len() - word.len() && same_text(
                #[trigger] text.subrange(from, from + word.len()),
                word,
            );
        let part = text.subrange(from, from + word.len());
        lemma_same_text(part, word);
        assert(lowered(part) =~= t.subrange(from, from + word.len()));
        assert(stands_at(t, from, word));
    }
}

proof fn lemma_card_words(text: Seq<char>)
    ensures
        is_gpu_type(text) <==> {
            ||| speaks_of(text, seq!['g', 'p', 'u'])
            ||| speaks_of(text, seq!['n', 'v', 'i', 'd', 'i', 'a'])
            ||| speaks_of(text, seq!['a', 't', 'i'])
        },
{
    reveal_strlit("gpu");
    reveal_strlit("nvidia");
    reveal_strlit("ati");
    assert("gpu"@ =~= seq!['g', 'p', 'u']);
    assert("nvidia"@ =~= seq!['n', 'v', 'i', 'd', 'i', 'a']);
    assert("ati"@ =~= seq!['a', 't', 'i']);
    assert(lowered("gpu"@) =~= "gpu"@);
    assert(lowered("nvidia"@) =~= "nvidia"@);
    assert(lowered("ati"@) =~= "ati"@);
    lemma_speaks_of(text, "gpu"@);
    lemma_speaks_of(text, "nvidia"@);
    lemma_speaks_of(text, "ati"@);
}

proof fn lemma_pump_words(text: Seq<char>)
    ensures
        is_pump_name(text) <==> {
            ||| speaks_of(text, seq!['p', 'u', 'm', 'p'])
            ||| speaks_of(text, seq!['a', 'i', 'o'])
            ||| speaks_of(text, seq!['w', 'a', 't', 'e', 'r'])
        },
{
    reveal_strlit("pump");
    reveal_strlit("aio");
    reveal_strlit("w_pump");
    reveal_strlit("water");
    assert("pump"@ =~= seq!['p', 'u', 'm', 'p']);
    assert("aio"@ =~= seq!['a', 'i', 'o']);
    assert("water"@ =~= seq!['w', 'a', 't', 'e', 'r']);
    assert(lowered("pump"@) =~= "pump"@);
    assert(lowered("aio"@) =~= "aio"@);
    assert(lowered("water"@) =~= "water"@);
    lemma_speaks_of(text, "pump"@);
    lemma_speaks_of(text, "aio"@);
    lemma_speaks_of(text, "water"@);
    let t = lowered(text);
    if has_part(t, "w_pump"@) {
        let from = choose|from: int| stands_at(t, from, "w_pump"@);
        let part = t.subrange(from, from + 6);
        assert(part == "w_pump"@);
        assert(part.subrange(2, 6) =~= t.subrange(from + 2, from + 6));
        assert("w_pump"@.subrange(2, 6) =~= "pump"@);
        assert(stands_at(t, from + 2, "pump"@));
    }
}

proof fn lemma_of_card(hardware: Seq<LhmHardware>, sensor: LhmSensor)
    ensures
        is_gpu(hardware, sensor.parent@) <==> is_of_card(hardware, sensor),
{
    assert forall|i: int| 0 <= i < hardware.len() implies (is_gpu_type(
        (#[trigger] hardware[i]).hw_type@,
    ) && lowered(hardware[i].identifier@) == lowered(sensor.parent@) <==> is_card(hardware[i])
        && same_text(hardware[i].identifier@, sensor.parent@)) by {
        lemma_card_words(hardware[i].hw_type@);
        lemma_same_text(hardware[i].identifier@, sensor.parent@);
    }
}

proof fn lemma_duty(controls: Seq<LhmControl>, sensor: LhmSensor)
    ensures
        is_duty_for(controls, sensor, duty_of(controls, sensor.parent@)),
    decreases controls.len(),
{
    if controls.len() > 0 {
        lemma_same_text(controls[0].parent@, sensor.parent@);
        let rest = controls.drop_first();
        if same_text(controls[0].parent@, sensor.parent@) {
            assert(no_earlier(controls, sensor, 0));
        } else {
            lemma_duty(rest, sensor);
            let pct = duty_of(rest, sensor.parent@);
            if let Some(p) = pct {
                let i = choose|i: int|
                    {
                        &&& 0 <= i < rest.len()
                        &&& same_text((#[trigger] rest[i]).parent@, sensor.parent@)
                        &&& p == if rest[i].duty > 100 {
                            100
                        } else {
                            rest[i].duty
                        }
                        &&& no_earlier(rest, sensor, i)
                    };
                assert(controls[i + 1] == rest[i]);
                assert forall|j: int| 0 <= j < i + 1 implies !same_text(
                    (#[trigger] controls[j]).parent@,
                    sensor.parent@,
                ) by {
                    if j > 0 {
                        assert(rest[j - 1] == controls[j]);
                    }
                }
                assert(no_earlier(controls, sensor, i + 1));
            } else {
                assert forall|i: int| 0 <= i < controls.len() implies !same_text(
                    (#[trigger] controls[i]).parent@,
                    sensor.parent@,
                ) by {
                    if i > 0 {
                        assert(rest[i - 1] == controls[i]);
                    }
                }
            }
        }
    }
}

/// The rows of a table; there are none where the query for it failed.
pub open spec fn table_rows<T>(table: Option<Vec<T>>) -> Seq<T> {
    if table is Some {
        table->0@
    } else {
        seq![]
    }
}

/// Without a connection to the service there are no fans.
pub proof fn lemma_no_service()
    ensures
        service_fans(None).len() == 0,
{
}

/// The service's fans are the sensors that turn and belong to no graphics card, whatever the case
/// of the texts, each with what the service says of it.
pub proof fn lemma_service_scan(tables: LhmTables)
    ensures
        is_list_of_sensors(
            table_rows(tables.hardware),
            table_rows(tables.controls),
            table_rows(tables.sensors),
            service_fans(Some(tables)),
        ),
{
    lemma_lists(rows(tables.hardware), rows(tables.controls), rows(tables.sensors));
}

proof fn lemma_lists(
    hardware: Seq<LhmHardware>,
    controls: Seq<LhmControl>,
    sensors: Seq<LhmSensor>,
)
    ensures
        is_list_of_sensors(hardware, controls, sensors, listing(hardware, controls, sensors)),
    decreases sensors.len(),
{
    let fans = listing(hardware, controls, sensors);
    if sensors.len() == 0 {
        assert(lists_sensors(hardware, controls, sensors, fans, seq![]));
    } else {
        let fewer = sensors.drop_last();
        let sensor = sensors.last();
        let found = listing(hardware, controls, fewer);
        lemma_lists(hardware, controls, fewer);
        let numbers = choose|numbers: Seq<int>| #[trigger]
            lists_sensors(hardware, controls, fewer, found, numbers);
        let last = fewer.len() as int;
        lemma_of_card(hardware, sensor);
        assert(sensors[last] == sensor);
        assert forall|n: int| 0 <= n < last implies #[trigger] sensors[n] == fewer[n] by {}
        if is_listed(hardware, sensor) {
            let longer = numbers.push(last);
            lemma_pump_words(sensor.name@);
            lemma_duty(controls, sensor);
            lemma_marked(found);
            lemma_pumps_among_fans(found);
            assert(fans.drop_last() =~= found);
            assert(fans.take(found.len() as int + 1) =~= fans);
            assert(is_entry_of(controls, fans, found.len() as int, sensor));
            assert forall|k: int| #![trigger longer[k]] 0 <= k < longer.len() implies {
                &&& 0 <= longer[k] < sensors.len()
                &&& sensors[longer[k]].rpm > 0
                &&& !is_of_card(hardware, sensors[longer[k]])
                &&& is_entry_of(controls, fans, k, sensors[longer[k]])
            } by {
                if k < numbers.len() {
                    assert(longer[k] == numbers[k]);
                    assert(sensors[longer[k]] == fewer[numbers[k]]);
                    assert(fans[k] == found[k]);
                    assert(fans.take(k + 1) =~= found.take(k + 1));
                    assert(is_entry_of(controls, found, k, fewer[numbers[k]]));
                }
            }
            assert forall|n: int|
                0 <= n < sensors.len() && (#[trigger] sensors[n]).rpm > 0 && !is_of_card(
                    hardware,
                    sensors[n],
                ) implies longer.contains(n) by {
                if n < last {
                    assert(fewer[n] == sensors[n]);
                    assert(numbers.contains(n));
                    let i = choose|i: int| 0 <= i < numbers.len() && numbers[i] == n;
                    assert(longer[i] == n);
                } else {
                    assert(longer[numbers.len() as int] == n);
                }
            }
            assert(lists_sensors(hardware, controls, sensors, fans, longer));
        } else {
            assert forall|n: int|
                0 <= n < sensors.len() && (#[trigger] sensors[n]).rpm > 0 && !is_of_card(
                    hardware,
                    sensors[n],
                ) implies numbers.contains(n) by {
                assert(n < last);
                assert(fewer[n] == sensors[n]);
            }
            assert(lists_sensors(hardware, controls, sensors, fans, numbers));
        }
    }
}

} // verus!
