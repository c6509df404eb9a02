# serialport

Serial ports on Linux terminals. The library takes the Linux types of the `termios` crate and does
not compile for another system.

`src/` is a library verified with Verus. It holds the rules of a serial port and performs no input
or output:

* `settings`, `error`: what can be set on a port, and what can go wrong;
* `baud`: the baud rates and the codes by which a terminal stores them;
* `modes`: the mode words of a terminal and the line settings that their bits stand for;
* `attributes`: the attributes of a terminal as the `termios` crate holds them, with the
  declarations of that crate that the proofs rest on;
* `action`: the system calls that the library asks for, and the replies to them;
* `port`: an open port, its settings and how they change;
* `changes`: what a series of changes of a port comes to;
* `pins`: the modem lines;
* `opening`: the steps in which a device is opened;
* `listing`: which terminal devices are serial ports.

`app/` makes the system calls and gives the ports `Read`, `Write` and `Drop`. `tests/` runs the
library on pseudo terminals.
