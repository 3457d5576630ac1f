# pandemist_vehicle_elements

Building blocks for vehicle scripts of the LOTUS simulator (trams such as the
GT6N): cockpit keys, throttle levers, door buttons, sounds, current
collectors, supply switches, the Indusi I 60M train protection and more.

The library in `src/` holds the decisions of these components — state
machines, stage logic, message handling — written in Verus and verified
against contracts stated over abstract models of each component. It does not
talk to the simulator: every operation takes what the host read (key states,
script variables, whether a timer has elapsed) and returns what the host is
to write or send (`VarWrite`s, bus messages).

`app/` is the host side: it reads and writes script variables through
`lotus-script`, sends and receives bus messages, and keeps everything that is
real-valued (positions, speeds, timers, volumes, brightness), calling the
library for each decision.

`tests/` exercises the library on concrete inputs.
