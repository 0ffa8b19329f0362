# shared

The verified core of an autonomous maritime platform, in which boats and a
harbourmaster talk over AIS and a satellite link and the harbourmaster hands
voyage orders to free boats.

`src/` is a Verus library. Its functions carry contracts that Verus proves,
except the small wrappers around calls into other crates and std (the CRC,
the random draws, the clock, the concurrent registry map, a few string and
slice conversions): their contracts restate what those crates document and
are taken on trust, not proved. The modules:

- `bitpacker`: bit strings as the radio frames carry them, with six-bit text;
- `voyage_order`, `satcom_message`: voyage orders and the satellite messages
  about them, written to bits and read back;
- `slot`, `slots_map`: the AIS slot map of a station (two channels of 2250
  slots a minute) and its scans;
- `boat_info`, `ais_message`, `ais_reception`, `boats_registry`: what a boat
  broadcasts, AIS frames with their communication state and CRC, and what a
  station records of the frames it hears;
- `sotdma`: a boat's SOTDMA schedule (network entry, first frame, continuous
  phase), as steps from state to state around the transmissions;
- `board_computer`, `fms`: the order protocol on board and at the
  harbourmaster, as decisions from a message and a state to a new state and
  replies;
- `voyage`, `navigation`: voyages, segments and the integer parts of steering;
- `antenna`, `relay`: where a received frame goes, at a station and at the
  relay server.

`app/` holds the programs around it (boat, harbourmaster, relay server): the
configuration file, the UDP antennas, the clocks, the task loops and the
floating-point geometry of the route. The harbourmaster keeps its voyage
orders in memory, loaded from `orders.toml`, in place of a fleet database.
