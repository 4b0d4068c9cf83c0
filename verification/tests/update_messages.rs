use iaqualink::{
    find, from_text, has_no_leaf, has_no_stamp, mirrors, mirrors_if_present, Decode, DecodeError, Encode, Expected, Json,
    MessageKind, MqttMetadata, MqttMetadataTimestamp, MqttResponse, MqttState, Number, Rejected, ReportedState,
    Strictness, UpdateAccepted, UpdateDelta,
};

const DOCUMENTS: &str = r#"
{
  "previous": {
    "state": {
      "desired": {
        "equipment": {
          "swc_0": {
            "aux_1": {}
          }
        },
        "schedules": {
          "sch1": {
            "enabled": 1,
            "timer": {
              "start": "08:00",
              "end": "10:00"
            }
          },
          "sch2": {
            "enabled": 1,
            "timer": {
              "start": "14:00",
              "end": "20:00"
            }
          },
          "sch3": {
            "enabled": 1,
            "timer": {
              "start": "08:00",
              "end": "10:00"
            }
          },
          "sch4": {
            "enabled": 1,
            "timer": {
              "start": "14:00",
              "end": "20:00"
            }
          }
        }
      },
      "reported": {
        "aws": {
          "status": "connected",
          "timestamp": 1686468192272,
          "session_id": "82fc61c6-23ce-4dea-ba59-2c6d79b1f7e3"
        },
        "debug": {
          "Version Firmware": "V85W4B0",
          "OTA success": 4,
          "OTA fail": 0,
          "OTA fail by disconnection": 0,
          "OTA fail global": 0,
          "MQTT connection": 1,
          "MQTT disconnection total": 0,
          "OTA State": 0,
          "Nb reboot du to MQTT issue": 2065,
          "Last error": 65278,
          "RSSI": -94,
          "Nb_Success_Pub_MSG": 0,
          "Nb_Success_Sub_Receive": 0,
          "Nb_Fail_Publish_MSG": 0,
          "Still alive": 1
        },
        "vr": "V85W4",
        "equipment": {
          "swc_0": {
            "sns_2": {
              "sensor_type": "Orp",
              "state": 1,
              "value": 790
            },
            "temp": 1,
            "vsp": 1,
            "exo_state": 1,
            "sns_1": {
              "sensor_type": "Ph",
              "state": 1,
              "value": 57
            },
            "aux_1": {
              "type": "light",
              "color": 0,
              "state": 1,
              "mode": 1
            },
            "lang": 4,
            "amp": 1,
            "aux230": 1,
            "sn": "ALWA01011336200223",
            "production": 0,
            "aux_2": {
              "type": "heat",
              "color": 0,
              "state": 0,
              "mode": 3
            },
            "swc": 50,
            "swc_low": 10,
            "orp_sp": 740,
            "version": "V1",
            "sns_3": {
              "sensor_type": "Water temp",
              "state": 1,
              "value": 26
            },
            "vr": "V85R70",
            "ph_only": 1,
            "dual_link": 1,
            "ph_sp": 72,
            "low": 0,
            "boost": 0,
            "boost_time": "24:00",
            "error_state": 0,
            "filter_pump": {
              "type": 1,
              "state": 0
            },
            "error_code": 0,
            "vsp_speed": {
              "min": 600,
              "max": 3080
            }
          }
        },
        "state": {
          "reported": {
            "debug_main": {
              "tr": 100
            }
          }
        },
        "schedules": {
          "sch2": {
            "timer": {
              "start": "14:00",
              "end": "20:00"
            },
            "enabled": 1,
            "active": 0,
            "id": "sch_2",
            "name": "Salt Water Chlorinator 2",
            "endpoint": "swc_2"
          },
          "sch10": {
            "id": "sch_10",
            "name": "Aux 2",
            "endpoint": "aux2",
            "enabled": 0,
            "active": 1,
            "timer": {
              "start": "00:00",
              "end": "00:00"
            }
          },
          "sch1": {
            "timer": {
              "start": "08:00",
              "end": "10:00"
            },
            "id": "sch_1",
            "name": "Salt Water Chlorinator 1",
            "endpoint": "swc_1",
            "enabled": 1,
            "active": 1
          },
          "sch9": {
            "timer": {
              "start": "19:00",
              "end": "23:59"
            },
            "enabled": 1,
            "active": 0,
            "id": "sch_9",
            "name": "Aux 1",
            "endpoint": "aux1"
          },
          "supported": 6,
          "programmed": 5,
          "sch3": {
            "enabled": 1,
            "active": 0,
            "timer": {
              "start": "08:00",
              "end": "10:00"
            },
            "id": "sch_3",
            "name": "Filter Pump 1",
            "endpoint": "ssp_1"
          },
          "sch4": {
            "enabled": 1,
            "active": 0,
            "id": "sch_4",
            "name": "Filter Pump 2",
            "endpoint": "ssp_2",
            "timer": {
              "start": "14:00",
              "end": "20:00"
            }
          }
        },
        "hmi": {
          "ff": {
            "fn": "/fluidra-ota-prod/exo/V85W4_OTA.bin",
            "vr": "V85W4",
            "ts": 1652278875,
            "pg": {
              "fs": 507300,
              "bd": 507300,
              "ts": 1652278522390,
              "te": 1652278875697
            }
          },
          "fw": {
            "fn": "/fluidra-ota-prod/exo/V85W4_OTA.bin",
            "vr": "V85W4"
          }
        },
        "main": {
          "ff": {
            "fn": "/fluidra-ota-prod/exo/V85R70_OTA.bin",
            "vr": "V85R70",
            "ts": 1652279182,
            "pg": {
              "fs": 402464,
              "bd": 402464,
              "ts": 1652278917214,
              "te": 1652279182779
            }
          }
        },
        "debug_main": {
          "tr": 100
        },
        "heating": {
          "enabled": 1,
          "state": 2,
          "priority_enabled": 0,
          "sp": 28,
          "sp_min": 15,
          "sp_max": 32
        }
      }
    },
    "metadata": {
      "desired": {
        "equipment": {
          "swc_0": {
            "aux_1": {}
          }
        },
        "schedules": {
          "sch1": {
            "enabled": {
              "timestamp": 1686511299
            },
            "timer": {
              "start": {
                "timestamp": 1686511299
              },
              "end": {
                "timestamp": 1686511299
              }
            }
          },
          "sch2": {
            "enabled": {
              "timestamp": 1686511299
            },
            "timer": {
              "start": {
                "timestamp": 1686511299
              },
              "end": {
                "timestamp": 1686511299
              }
            }
          },
          "sch3": {
            "enabled": {
              "timestamp": 1686511299
            },
            "timer": {
              "start": {
                "timestamp": 1686511299
              },
              "end": {
                "timestamp": 1686511299
              }
            }
          },
          "sch4": {
            "enabled": {
              "timestamp": 1686511299
            },
            "timer": {
              "start": {
                "timestamp": 1686511299
              },
              "end": {
                "timestamp": 1686511299
              }
            }
          }
        }
      },
      "reported": {
        "aws": {
          "status": {
            "timestamp": 1686468192
          },
          "timestamp": {
            "timestamp": 1686468192
          },
          "session_id": {
            "timestamp": 1686468192
          }
        },
        "debug": {
          "Version Firmware": {
            "timestamp": 1686451882
          },
          "OTA success": {
            "timestamp": 1686451882
          },
          "OTA fail": {
            "timestamp": 1686451882
          },
          "OTA fail by disconnection": {
            "timestamp": 1686451882
          },
          "OTA fail global": {
            "timestamp": 1686451882
          },
          "MQTT connection": {
            "timestamp": 1686451882
          },
          "MQTT disconnection total": {
            "timestamp": 1686451882
          },
          "OTA State": {
            "timestamp": 1686451882
          },
          "Nb reboot du to MQTT issue": {
            "timestamp": 1686451882
          },
          "Last error": {
            "timestamp": 1686451882
          },
          "RSSI": {
            "timestamp": 1686451882
          },
          "Nb_Success_Pub_MSG": {
            "timestamp": 1686451882
          },
          "Nb_Success_Sub_Receive": {
            "timestamp": 1686451882
          },
          "Nb_Fail_Publish_MSG": {
            "timestamp": 1686451882
          },
          "Still alive": {
            "timestamp": 1686451882
          }
        },
        "vr": {
          "timestamp": 1686468192
        },
        "equipment": {
          "swc_0": {
            "sns_2": {
              "sensor_type": {
                "timestamp": 1686508208
              },
              "state": {
                "timestamp": 1686508208
              },
              "value": {
                "timestamp": 1686508208
              }
            },
            "temp": {
              "timestamp": 1683352378
            },
            "vsp": {
              "timestamp": 1683352378
            },
            "exo_state": {
              "timestamp": 1683352435
            },
            "sns_1": {
              "sensor_type": {
                "timestamp": 1686511250
              },
              "state": {
                "timestamp": 1686511250
              },
              "value": {
                "timestamp": 1686511250
              }
            },
            "aux_1": {
              "type": {
                "timestamp": 1683352368
              },
              "color": {
                "timestamp": 1683352381
              },
              "state": {
                "timestamp": 1686511305
              },
              "mode": {
                "timestamp": 1683352412
              }
            },
            "lang": {
              "timestamp": 1683352388
            },
            "amp": {
              "timestamp": 1683352388
            },
            "aux230": {
              "timestamp": 1683352388
            },
            "sn": {
              "timestamp": 1683352388
            },
            "production": {
              "timestamp": 1686506435
            },
            "aux_2": {
              "type": {
                "timestamp": 1683352369
              },
              "color": {
                "timestamp": 1683352408
              },
              "state": {
                "timestamp": 1683352390
              },
              "mode": {
                "timestamp": 1683352403
              }
            },
            "swc": {
              "timestamp": 1683352404
            },
            "swc_low": {
              "timestamp": 1683352433
            },
            "orp_sp": {
              "timestamp": 1683352371
            },
            "version": {
              "timestamp": 1683352453
            },
            "sns_3": {
              "sensor_type": {
                "timestamp": 1686509960
              },
              "state": {
                "timestamp": 1686509960
              },
              "value": {
                "timestamp": 1686509960
              }
            },
            "vr": {
              "timestamp": 1683352395
            },
            "ph_only": {
              "timestamp": 1683352498
            },
            "dual_link": {
              "timestamp": 1683352498
            },
            "ph_sp": {
              "timestamp": 1683352383
            },
            "low": {
              "timestamp": 1683352407
            },
            "boost": {
              "timestamp": 1683352389
            },
            "boost_time": {
              "timestamp": 1683352380
            },
            "error_state": {
              "timestamp": 1683352415
            },
            "filter_pump": {
              "type": {
                "timestamp": 1683366231
              },
              "state": {
                "timestamp": 1686506429
              }
            },
            "error_code": {
              "timestamp": 1683352419
            },
            "vsp_speed": {
              "min": {
                "timestamp": 1683366057
              },
              "max": {
                "timestamp": 1683366058
              }
            }
          }
        },
        "state": {
          "reported": {
            "debug_main": {
              "tr": {
                "timestamp": 1626814321
              }
            }
          }
        },
        "schedules": {
          "sch2": {
            "timer": {
              "start": {
                "timestamp": 1684799527
              },
              "end": {
                "timestamp": 1684799527
              }
            },
            "enabled": {
              "timestamp": 1686506436
            },
            "active": {
              "timestamp": 1686506436
            },
            "id": {
              "timestamp": 1683352393
            },
            "name": {
              "timestamp": 1683352393
            },
            "endpoint": {
              "timestamp": 1683352393
            }
          },
          "sch10": {
            "id": {
              "timestamp": 1683352475
            },
            "name": {
              "timestamp": 1683352475
            },
            "endpoint": {
              "timestamp": 1683352475
            },
            "enabled": {
              "timestamp": 1686511304
            },
            "active": {
              "timestamp": 1686511304
            },
            "timer": {
              "start": {
                "timestamp": 1683352377
              },
              "end": {
                "timestamp": 1683352377
              }
            }
          },
          "sch1": {
            "timer": {
              "start": {
                "timestamp": 1684799421
              },
              "end": {
                "timestamp": 1684799421
              }
            },
            "id": {
              "timestamp": 1683352362
            },
            "name": {
              "timestamp": 1683352362
            },
            "endpoint": {
              "timestamp": 1683352362
            },
            "enabled": {
              "timestamp": 1686463233
            },
            "active": {
              "timestamp": 1686463233
            }
          },
          "sch9": {
            "timer": {
              "start": {
                "timestamp": 1683352414
              },
              "end": {
                "timestamp": 1683352414
              }
            },
            "enabled": {
              "timestamp": 1686511299
            },
            "active": {
              "timestamp": 1686511299
            },
            "id": {
              "timestamp": 1683352394
            },
            "name": {
              "timestamp": 1683352394
            },
            "endpoint": {
              "timestamp": 1683352394
            }
          },
          "supported": {
            "timestamp": 1683366233
          },
          "programmed": {
            "timestamp": 1683366233
          },
          "sch3": {
            "enabled": {
              "timestamp": 1686470435
            },
            "active": {
              "timestamp": 1686470435
            },
            "timer": {
              "start": {
                "timestamp": 1684799423
              },
              "end": {
                "timestamp": 1684799423
              }
            },
            "id": {
              "timestamp": 1683366244
            },
            "name": {
              "timestamp": 1683366244
            },
            "endpoint": {
              "timestamp": 1683366244
            }
          },
          "sch4": {
            "enabled": {
              "timestamp": 1686506430
            },
            "active": {
              "timestamp": 1686506430
            },
            "id": {
              "timestamp": 1683366242
            },
            "name": {
              "timestamp": 1683366242
            },
            "endpoint": {
              "timestamp": 1683366242
            },
            "timer": {
              "start": {
                "timestamp": 1684799528
              },
              "end": {
                "timestamp": 1684799528
              }
            }
          }
        },
        "hmi": {
          "ff": {
            "fn": {
              "timestamp": 1652278522
            },
            "vr": {
              "timestamp": 1652278522
            },
            "ts": {
              "timestamp": 1652278875
            },
            "pg": {
              "fs": {
                "timestamp": 1652278522
              },
              "bd": {
                "timestamp": 1652278875
              },
              "ts": {
                "timestamp": 1652278522
              },
              "te": {
                "timestamp": 1652278875
              }
            }
          },
          "fw": {
            "fn": {
              "timestamp": 1652278888
            },
            "vr": {
              "timestamp": 1652278888
            }
          }
        },
        "main": {
          "ff": {
            "fn": {
              "timestamp": 1652278916
            },
            "vr": {
              "timestamp": 1652278916
            },
            "ts": {
              "timestamp": 1652279183
            },
            "pg": {
              "fs": {
                "timestamp": 1652278917
              },
              "bd": {
                "timestamp": 1652279182
              },
              "ts": {
                "timestamp": 1652278917
              },
              "te": {
                "timestamp": 1652279182
              }
            }
          }
        },
        "debug_main": {
          "tr": {
            "timestamp": 1652279423
          }
        },
        "heating": {
          "enabled": {
            "timestamp": 1683352382
          },
          "state": {
            "timestamp": 1686506432
          },
          "priority_enabled": {
            "timestamp": 1683352398
          },
          "sp": {
            "timestamp": 1683352416
          },
          "sp_min": {
            "timestamp": 1683352416
          },
          "sp_max": {
            "timestamp": 1683352416
          }
        }
      }
    },
    "version": 2070905
  },
  "current": {
    "state": {
      "desired": {
        "equipment": {
          "swc_0": {
            "aux_1": {}
          }
        },
        "schedules": {
          "sch1": {
            "enabled": 1,
            "timer": {
              "start": "08:00",
              "end": "10:00"
            }
          },
          "sch2": {
            "enabled": 1,
            "timer": {
              "start": "14:00",
              "end": "20:00"
            }
          },
          "sch3": {
            "enabled": 1,
            "timer": {
              "start": "08:00",
              "end": "10:00"
            }
          },
          "sch4": {
            "enabled": 1,
            "timer": {
              "start": "14:00",
              "end": "20:00"
            }
          }
        }
      },
      "reported": {
        "aws": {
          "status": "connected",
          "timestamp": 1686468192272,
          "session_id": "82fc61c6-23ce-4dea-ba59-2c6d79b1f7e3"
        },
        "debug": {
          "Version Firmware": "V85W4B0",
          "OTA success": 4,
          "OTA fail": 0,
          "OTA fail by disconnection": 0,
          "OTA fail global": 0,
          "MQTT connection": 1,
          "MQTT disconnection total": 0,
          "OTA State": 0,
          "Nb reboot du to MQTT issue": 2065,
          "Last error": 65278,
          "RSSI": -94,
          "Nb_Success_Pub_MSG": 0,
          "Nb_Success_Sub_Receive": 0,
          "Nb_Fail_Publish_MSG": 0,
          "Still alive": 1
        },
        "vr": "V85W4",
        "equipment": {
          "swc_0": {
            "sns_2": {
              "sensor_type": "Orp",
              "state": 1,
              "value": 790
            },
            "temp": 1,
            "vsp": 1,
            "exo_state": 1,
            "sns_1": {
              "sensor_type": "Ph",
              "state": 1,
              "value": 57
            },
            "aux_1": {
              "type": "light",
              "color": 0,
              "state": 1,
              "mode": 1
            },
            "lang": 4,
            "amp": 1,
            "aux230": 1,
            "sn": "ALWA01011336200223",
            "production": 0,
            "aux_2": {
              "type": "heat",
              "color": 0,
              "state": 0,
              "mode": 3
            },
            "swc": 50,
            "swc_low": 10,
            "orp_sp": 740,
            "version": "V1",
            "sns_3": {
              "sensor_type": "Water temp",
              "state": 1,
              "value": 26
            },
            "vr": "V85R70",
            "ph_only": 1,
            "dual_link": 1,
            "ph_sp": 72,
            "low": 0,
            "boost": 0,
            "boost_time": "24:00",
            "error_state": 0,
            "filter_pump": {
              "type": 1,
              "state": 0
            },
            "error_code": 0,
            "vsp_speed": {
              "min": 600,
              "max": 3080
            }
          }
        },
        "state": {
          "reported": {
            "debug_main": {
              "tr": 100
            }
          }
        },
        "schedules": {
          "sch2": {
            "timer": {
              "start": "14:00",
              "end": "20:00"
            },
            "enabled": 1,
            "active": 0,
            "id": "sch_2",
            "name": "Salt Water Chlorinator 2",
            "endpoint": "swc_2"
          },
          "sch10": {
            "id": "sch_10",
            "name": "Aux 2",
            "endpoint": "aux2",
            "enabled": 0,
            "active": 1,
            "timer": {
              "start": "00:00",
              "end": "00:00"
            }
          },
          "sch1": {
            "timer": {
              "start": "08:00",
              "end": "10:00"
            },
            "id": "sch_1",
            "name": "Salt Water Chlorinator 1",
            "endpoint": "swc_1",
            "enabled": 1,
            "active": 1
          },
          "sch9": {
            "timer": {
              "start": "19:00",
              "end": "23:59"
            },
            "enabled": 1,
            "active": 1,
            "id": "sch_9",
            "name": "Aux 1",
            "endpoint": "aux1"
          },
          "supported": 6,
          "programmed": 5,
          "sch3": {
            "enabled": 1,
            "active": 0,
            "timer": {
              "start": "08:00",
              "end": "10:00"
            },
            "id": "sch_3",
            "name": "Filter Pump 1",
            "endpoint": "ssp_1"
          },
          "sch4": {
            "enabled": 1,
            "active": 0,
            "id": "sch_4",
            "name": "Filter Pump 2",
            "endpoint": "ssp_2",
            "timer": {
              "start": "14:00",
              "end": "20:00"
            }
          }
        },
        "hmi": {
          "ff": {
            "fn": "/fluidra-ota-prod/exo/V85W4_OTA.bin",
            "vr": "V85W4",
            "ts": 1652278875,
            "pg": {
              "fs": 507300,
              "bd": 507300,
              "ts": 1652278522390,
              "te": 1652278875697
            }
          },
          "fw": {
            "fn": "/fluidra-ota-prod/exo/V85W4_OTA.bin",
            "vr": "V85W4"
          }
        },
        "main": {
          "ff": {
            "fn": "/fluidra-ota-prod/exo/V85R70_OTA.bin",
            "vr": "V85R70",
            "ts": 1652279182,
            "pg": {
              "fs": 402464,
              "bd": 402464,
              "ts": 1652278917214,
              "te": 1652279182779
            }
          }
        },
        "debug_main": {
          "tr": 100
        },
        "heating": {
          "enabled": 1,
          "state": 2,
          "priority_enabled": 0,
          "sp": 28,
          "sp_min": 15,
          "sp_max": 32
        }
      }
    },
    "metadata": {
      "desired": {
        "equipment": {
          "swc_0": {
            "aux_1": {}
          }
        },
        "schedules": {
          "sch1": {
            "enabled": {
              "timestamp": 1686511299
            },
            "timer": {
              "start": {
                "timestamp": 1686511299
              },
              "end": {
                "timestamp": 1686511299
              }
            }
          },
          "sch2": {
            "enabled": {
              "timestamp": 1686511299
            },
            "timer": {
              "start": {
                "timestamp": 1686511299
              },
              "end": {
                "timestamp": 1686511299
              }
            }
          },
          "sch3": {
            "enabled": {
              "timestamp": 1686511299
            },
            "timer": {
              "start": {
                "timestamp": 1686511299
              },
              "end": {
                "timestamp": 1686511299
              }
            }
          },
          "sch4": {
            "enabled": {
              "timestamp": 1686511299
            },
            "timer": {
              "start": {
                "timestamp": 1686511299
              },
              "end": {
                "timestamp": 1686511299
              }
            }
          }
        }
      },
      "reported": {
        "aws": {
          "status": {
            "timestamp": 1686468192
          },
          "timestamp": {
            "timestamp": 1686468192
          },
          "session_id": {
            "timestamp": 1686468192
          }
        },
        "debug": {
          "Version Firmware": {
            "timestamp": 1686451882
          },
          "OTA success": {
            "timestamp": 1686451882
          },
          "OTA fail": {
            "timestamp": 1686451882
          },
          "OTA fail by disconnection": {
            "timestamp": 1686451882
          },
          "OTA fail global": {
            "timestamp": 1686451882
          },
          "MQTT connection": {
            "timestamp": 1686451882
          },
          "MQTT disconnection total": {
            "timestamp": 1686451882
          },
          "OTA State": {
            "timestamp": 1686451882
          },
          "Nb reboot du to MQTT issue": {
            "timestamp": 1686451882
          },
          "Last error": {
            "timestamp": 1686451882
          },
          "RSSI": {
            "timestamp": 1686451882
          },
          "Nb_Success_Pub_MSG": {
            "timestamp": 1686451882
          },
          "Nb_Success_Sub_Receive": {
            "timestamp": 1686451882
          },
          "Nb_Fail_Publish_MSG": {
            "timestamp": 1686451882
          },
          "Still alive": {
            "timestamp": 1686451882
          }
        },
        "vr": {
          "timestamp": 1686468192
        },
        "equipment": {
          "swc_0": {
            "sns_2": {
              "sensor_type": {
                "timestamp": 1686508208
              },
              "state": {
                "timestamp": 1686508208
              },
              "value": {
                "timestamp": 1686508208
              }
            },
            "temp": {
              "timestamp": 1683352378
            },
            "vsp": {
              "timestamp": 1683352378
            },
            "exo_state": {
              "timestamp": 1683352435
            },
            "sns_1": {
              "sensor_type": {
                "timestamp": 1686511250
              },
              "state": {
                "timestamp": 1686511250
              },
              "value": {
                "timestamp": 1686511250
              }
            },
            "aux_1": {
              "type": {
                "timestamp": 1683352368
              },
              "color": {
                "timestamp": 1683352381
              },
              "state": {
                "timestamp": 1686511305
              },
              "mode": {
                "timestamp": 1683352412
              }
            },
            "lang": {
              "timestamp": 1683352388
            },
            "amp": {
              "timestamp": 1683352388
            },
            "aux230": {
              "timestamp": 1683352388
            },
            "sn": {
              "timestamp": 1683352388
            },
            "production": {
              "timestamp": 1686506435
            },
            "aux_2": {
              "type": {
                "timestamp": 1683352369
              },
              "color": {
                "timestamp": 1683352408
              },
              "state": {
                "timestamp": 1683352390
              },
              "mode": {
                "timestamp": 1683352403
              }
            },
            "swc": {
              "timestamp": 1683352404
            },
            "swc_low": {
              "timestamp": 1683352433
            },
            "orp_sp": {
              "timestamp": 1683352371
            },
            "version": {
              "timestamp": 1683352453
            },
            "sns_3": {
              "sensor_type": {
                "timestamp": 1686509960
              },
              "state": {
                "timestamp": 1686509960
              },
              "value": {
                "timestamp": 1686509960
              }
            },
            "vr": {
              "timestamp": 1683352395
            },
            "ph_only": {
              "timestamp": 1683352498
            },
            "dual_link": {
              "timestamp": 1683352498
            },
            "ph_sp": {
              "timestamp": 1683352383
            },
            "low": {
              "timestamp": 1683352407
            },
            "boost": {
              "timestamp": 1683352389
            },
            "boost_time": {
              "timestamp": 1683352380
            },
            "error_state": {
              "timestamp": 1683352415
            },
            "filter_pump": {
              "type": {
                "timestamp": 1683366231
              },
              "state": {
                "timestamp": 1686506429
              }
            },
            "error_code": {
              "timestamp": 1683352419
            },
            "vsp_speed": {
              "min": {
                "timestamp": 1683366057
              },
              "max": {
                "timestamp": 1683366058
              }
            }
          }
        },
        "state": {
          "reported": {
            "debug_main": {
              "tr": {
                "timestamp": 1626814321
              }
            }
          }
        },
        "schedules": {
          "sch2": {
            "timer": {
              "start": {
                "timestamp": 1684799527
              },
              "end": {
                "timestamp": 1684799527
              }
            },
            "enabled": {
              "timestamp": 1686506436
            },
            "active": {
              "timestamp": 1686506436
            },
            "id": {
              "timestamp": 1683352393
            },
            "name": {
              "timestamp": 1683352393
            },
            "endpoint": {
              "timestamp": 1683352393
            }
          },
          "sch10": {
            "id": {
              "timestamp": 1683352475
            },
            "name": {
              "timestamp": 1683352475
            },
            "endpoint": {
              "timestamp": 1683352475
            },
            "enabled": {
              "timestamp": 1686511304
            },
            "active": {
              "timestamp": 1686511304
            },
            "timer": {
              "start": {
                "timestamp": 1683352377
              },
              "end": {
                "timestamp": 1683352377
              }
            }
          },
          "sch1": {
            "timer": {
              "start": {
                "timestamp": 1684799421
              },
              "end": {
                "timestamp": 1684799421
              }
            },
            "id": {
              "timestamp": 1683352362
            },
            "name": {
              "timestamp": 1683352362
            },
            "endpoint": {
              "timestamp": 1683352362
            },
            "enabled": {
              "timestamp": 1686463233
            },
            "active": {
              "timestamp": 1686463233
            }
          },
          "sch9": {
            "timer": {
              "start": {
                "timestamp": 1683352414
              },
              "end": {
                "timestamp": 1683352414
              }
            },
            "enabled": {
              "timestamp": 1686511306
            },
            "active": {
              "timestamp": 1686511306
            },
            "id": {
              "timestamp": 1683352394
            },
            "name": {
              "timestamp": 1683352394
            },
            "endpoint": {
              "timestamp": 1683352394
            }
          },
          "supported": {
            "timestamp": 1683366233
          },
          "programmed": {
            "timestamp": 1683366233
          },
          "sch3": {
            "enabled": {
              "timestamp": 1686470435
            },
            "active": {
              "timestamp": 1686470435
            },
            "timer": {
              "start": {
                "timestamp": 1684799423
              },
              "end": {
                "timestamp": 1684799423
              }
            },
            "id": {
              "timestamp": 1683366244
            },
            "name": {
              "timestamp": 1683366244
            },
            "endpoint": {
              "timestamp": 1683366244
            }
          },
          "sch4": {
            "enabled": {
              "timestamp": 1686506430
            },
            "active": {
              "timestamp": 1686506430
            },
            "id": {
              "timestamp": 1683366242
            },
            "name": {
              "timestamp": 1683366242
            },
            "endpoint": {
              "timestamp": 1683366242
            },
            "timer": {
              "start": {
                "timestamp": 1684799528
              },
              "end": {
                "timestamp": 1684799528
              }
            }
          }
        },
        "hmi": {
          "ff": {
            "fn": {
              "timestamp": 1652278522
            },
            "vr": {
              "timestamp": 1652278522
            },
            "ts": {
              "timestamp": 1652278875
            },
            "pg": {
              "fs": {
                "timestamp": 1652278522
              },
              "bd": {
                "timestamp": 1652278875
              },
              "ts": {
                "timestamp": 1652278522
              },
              "te": {
                "timestamp": 1652278875
              }
            }
          },
          "fw": {
            "fn": {
              "timestamp": 1652278888
            },
            "vr": {
              "timestamp": 1652278888
            }
          }
        },
        "main": {
          "ff": {
            "fn": {
              "timestamp": 1652278916
            },
            "vr": {
              "timestamp": 1652278916
            },
            "ts": {
              "timestamp": 1652279183
            },
            "pg": {
              "fs": {
                "timestamp": 1652278917
              },
              "bd": {
                "timestamp": 1652279182
              },
              "ts": {
                "timestamp": 1652278917
              },
              "te": {
                "timestamp": 1652279182
              }
            }
          }
        },
        "debug_main": {
          "tr": {
            "timestamp": 1652279423
          }
        },
        "heating": {
          "enabled": {
            "timestamp": 1683352382
          },
          "state": {
            "timestamp": 1686506432
          },
          "priority_enabled": {
            "timestamp": 1683352398
          },
          "sp": {
            "timestamp": 1683352416
          },
          "sp_min": {
            "timestamp": 1683352416
          },
          "sp_max": {
            "timestamp": 1683352416
          }
        }
      }
    },
    "version": 2070906
  },
  "timestamp": 1686511306
}
"#;

const DELTA: &str = r#"
{
  "version":2525306,
  "timestamp":1696250213,
  "state":{
    "schedules":{"sch1":{"timer":{"start":"09:13","end":"11:00"}},"sch2":{"timer":{"end":"20:13"}},"sch3":{"timer":{"start":"09:13","end":"11:00"}},"sch4":{"timer":{"end":"20:13"}}}
  },
  "metadata":{
    "schedules":{"sch1":{"timer":{"start":{"timestamp":1696250173},"end":{"timestamp":1696250173}}},"sch2":{"timer":{"end":{"timestamp":1696250173}}},"sch3":{"timer":{"start":{"timestamp":1696250173},"end":{"timestamp":1696250173}}},"sch4":{"timer":{"end":{"timestamp":1696250173}}}}
  }
}
"#;

#[test]
fn mqtt_response() {
    let mqtt_response = from_text::<MqttResponse>(DOCUMENTS.as_bytes(), Strictness::Strict).unwrap();
    assert!(matches!(mqtt_response, MqttResponse::UpdateDocuments { .. }));
}

#[test]
fn mqtt_response_update_delta() {
    let mqtt_response = from_text::<MqttResponse>(DELTA.as_bytes(), Strictness::Strict).unwrap();
    assert!(matches!(mqtt_response, MqttResponse::UpdateDelta { .. }));
}

fn unsigned(n: u64) -> Json {
    Json::Number(Number::Unsigned(n))
}

fn text(s: &str) -> Json {
    Json::String(s.to_string())
}

fn object(members: Vec<(&str, Json)>) -> Json {
    Json::Object(members.into_iter().map(|(name, value)| (name.to_string(), value)).collect())
}

fn stamp(at: u32) -> MqttMetadataTimestamp {
    MqttMetadataTimestamp::Timestamp(at)
}

fn nested(children: Vec<(&str, MqttMetadataTimestamp)>) -> MqttMetadataTimestamp {
    MqttMetadataTimestamp::Nested(children.into_iter().map(|(name, child)| (name.to_string(), child)).collect())
}

#[test]
fn the_documents_message_holds_both_versions() {
    match from_text::<MqttResponse>(DOCUMENTS.as_bytes(), Strictness::Strict).unwrap() {
        MqttResponse::UpdateDocuments(message) => {
            assert_eq!(message.timestamp, 1686511306);
            assert_eq!(message.client_token, None);
            assert_eq!(message.state, None);
            assert_eq!(message.metadata, None);
            assert_eq!(message.previous.as_ref().unwrap().version, 2070905);
            assert_eq!(message.current.as_ref().unwrap().version, 2070906);
            assert_eq!(message.extra, vec![]);
        },
        other => panic!("not documents: {:?}", other),
    }
}

#[test]
fn the_delta_message_holds_what_was_written() {
    match from_text::<MqttResponse>(DELTA.as_bytes(), Strictness::Strict).unwrap() {
        MqttResponse::UpdateDelta(message) => {
            assert_eq!(message.version, 2525306);
            assert_eq!(message.timestamp, 1696250213);
            assert_eq!(message.client_token, None);
            let end = object(vec![("end", text("20:13"))]);
            let timer = match &message.state {
                Json::Object(state) => match find(state, "schedules") {
                    Some(Json::Object(schedules)) => match find(schedules, "sch2") {
                        Some(Json::Object(slot)) => find(slot, "timer").cloned(),
                        _ => None,
                    },
                    _ => None,
                },
                _ => None,
            };
            assert_eq!(timer, Some(end));
            let expected = nested(vec![(
                "schedules",
                nested(vec![
                    ("sch1", nested(vec![("timer", nested(vec![("end", stamp(1696250173)), ("start", stamp(1696250173))]))])),
                    ("sch2", nested(vec![("timer", nested(vec![("end", stamp(1696250173))]))])),
                    ("sch3", nested(vec![("timer", nested(vec![("end", stamp(1696250173)), ("start", stamp(1696250173))]))])),
                    ("sch4", nested(vec![("timer", nested(vec![("end", stamp(1696250173))]))])),
                ]),
            )]);
            assert_eq!(message.metadata, expected);
        },
        other => panic!("not a delta: {:?}", other),
    }
}

#[test]
fn the_kind_of_a_message_is_its_variant() {
    let documents = from_text::<MqttResponse>(DOCUMENTS.as_bytes(), Strictness::Strict).unwrap();
    assert_eq!(documents.kind(), MessageKind::UpdateDocuments);
    let delta = from_text::<MqttResponse>(DELTA.as_bytes(), Strictness::Strict).unwrap();
    assert_eq!(delta.kind(), MessageKind::UpdateDelta);
}

const ACCEPTED: &str = "{\"state\":{\"desired\":{\"equipment\":{\"swc_0\":{\"production\":1}}}},\
    \"metadata\":{\"desired\":{\"equipment\":{\"swc_0\":{\"production\":{\"timestamp\":1686511299}}}}},\
    \"version\":2070907,\"timestamp\":1686511310,\"clientToken\":\"abc\"}";

#[test]
fn an_accepted_update_is_read_as_such() {
    let expected = MqttResponse::UpdateAccepted(UpdateAccepted {
        state: MqttState {
            desired: Some(object(vec![("equipment", object(vec![("swc_0", object(vec![("production", unsigned(1))]))]))])),
            reported: None,
            extra: vec![],
        },
        metadata: MqttMetadata {
            desired: Some(nested(vec![("equipment", nested(vec![("swc_0", nested(vec![("production", stamp(1686511299))]))]))])),
            reported: None,
            extra: vec![],
        },
        timestamp: 1686511310,
        client_token: Some("abc".to_string()),
        version: 2070907,
        extra: vec![],
    });
    assert_eq!(from_text::<MqttResponse>(ACCEPTED.as_bytes(), Strictness::Strict), Ok(expected));
}

#[test]
fn an_error_message_is_read_as_such() {
    let expected = Rejected { client_token: None, code: 404, message: "No shadow exists".to_string(), extra: vec![] };
    assert_eq!(
        from_text::<MqttResponse>(b"{\"code\":404,\"message\":\"No shadow exists\"}", Strictness::Strict),
        Ok(MqttResponse::Error(expected))
    );
}

#[test]
fn an_update_whose_state_lacks_the_split_is_a_delta() {
    let text = b"{\"state\":{},\"metadata\":{},\"version\":1,\"timestamp\":2}";
    let expected = MqttResponse::UpdateDelta(UpdateDelta {
        state: object(vec![]),
        metadata: nested(vec![]),
        timestamp: 2,
        client_token: None,
        version: 1,
        extra: vec![],
    });
    for mode in [Strictness::Strict, Strictness::Lenient] {
        assert_eq!(from_text::<MqttResponse>(text, mode).as_ref(), Ok(&expected));
        let doc = Json::parse(text).unwrap();
        assert_eq!(
            MqttResponse::decode_as(MessageKind::UpdateAccepted, &doc, mode),
            Err(DecodeError::Field("state".to_string(), Box::new(DecodeError::MissingField("desired".to_string()))))
        );
    }
}

#[test]
fn the_captured_messages_are_of_the_same_variant_in_lenient_mode() {
    let delta = from_text::<MqttResponse>(DELTA.as_bytes(), Strictness::Lenient).unwrap();
    assert_eq!(delta.kind(), MessageKind::UpdateDelta);
    assert_eq!(Ok(delta), from_text::<MqttResponse>(DELTA.as_bytes(), Strictness::Strict));
    let documents = from_text::<MqttResponse>(DOCUMENTS.as_bytes(), Strictness::Lenient).unwrap();
    assert_eq!(documents.kind(), MessageKind::UpdateDocuments);
    assert_eq!(Ok(documents), from_text::<MqttResponse>(DOCUMENTS.as_bytes(), Strictness::Strict));
    let accepted = from_text::<MqttResponse>(ACCEPTED.as_bytes(), Strictness::Lenient).unwrap();
    assert_eq!(accepted.kind(), MessageKind::UpdateAccepted);
    assert_eq!(Ok(accepted), from_text::<MqttResponse>(ACCEPTED.as_bytes(), Strictness::Strict));
}

#[test]
fn a_key_of_another_variant_is_refused_in_either_mode() {
    for mode in [Strictness::Strict, Strictness::Lenient] {
        assert_eq!(
            from_text::<MqttResponse>(b"{\"timestamp\":1,\"version\":2}", mode),
            Err(DecodeError::SchemaMismatch(vec![
                ("UpdateDocuments".to_string(), DecodeError::UnknownField("version".to_string())),
                ("UpdateAccepted".to_string(), DecodeError::MissingField("state".to_string())),
                ("UpdateDelta".to_string(), DecodeError::MissingField("state".to_string())),
                ("Error".to_string(), DecodeError::UnknownField("timestamp".to_string())),
            ]))
        );
    }
    let doc = Json::parse(ACCEPTED.as_bytes()).unwrap();
    assert_eq!(
        MqttResponse::decode_as(MessageKind::UpdateDocuments, &doc, Strictness::Lenient),
        Err(DecodeError::UnknownField("version".to_string()))
    );
    assert_eq!(
        MqttResponse::decode_as(MessageKind::UpdateDelta, &doc, Strictness::Lenient),
        Err(DecodeError::Field("state".to_string(), Box::new(DecodeError::UnknownField("desired".to_string()))))
    );
    assert_eq!(
        MqttResponse::decode_as(MessageKind::Error, &doc, Strictness::Lenient),
        Err(DecodeError::UnknownField("state".to_string()))
    );
}

#[test]
fn lenient_mode_carries_unknown_keys_without_changing_the_variant() {
    let text = b"{\"state\":{\"desired\":{\"a\":1},\"delta\":{\"a\":1}},\
        \"metadata\":{\"desired\":{\"a\":{\"timestamp\":3}}},\"version\":1,\"timestamp\":2,\"hint\":true}";
    match from_text::<MqttResponse>(text, Strictness::Lenient).unwrap() {
        MqttResponse::UpdateAccepted(update) => {
            assert_eq!(update.state.desired, Some(object(vec![("a", unsigned(1))])));
            assert_eq!(find(&update.state.extra, "delta"), Some(&object(vec![("a", unsigned(1))])));
            assert_eq!(find(&update.extra, "hint"), Some(&Json::Bool(true)));
        },
        other => panic!("not an accepted update: {:?}", other),
    }
    match from_text::<MqttResponse>(text, Strictness::Strict) {
        Err(DecodeError::SchemaMismatch(attempts)) => {
            assert_eq!(attempts[1], ("UpdateAccepted".to_string(), DecodeError::UnknownField("hint".to_string())));
            assert_eq!(attempts[2], ("UpdateDelta".to_string(), DecodeError::UnknownField("hint".to_string())));
        },
        other => panic!("read in strict mode: {:?}", other),
    }
    let split = b"{\"state\":{\"desired\":{\"a\":1},\"delta\":{\"a\":1}},\
        \"metadata\":{\"desired\":{\"a\":{\"timestamp\":3}}},\"version\":1,\"timestamp\":2}";
    match from_text::<MqttResponse>(split, Strictness::Strict) {
        Err(DecodeError::SchemaMismatch(attempts)) => {
            let unknown = DecodeError::Field("state".to_string(), Box::new(DecodeError::UnknownField("delta".to_string())));
            assert_eq!(attempts[1], ("UpdateAccepted".to_string(), unknown));
            let held = DecodeError::Field("state".to_string(), Box::new(DecodeError::UnknownField("desired".to_string())));
            assert_eq!(attempts[2], ("UpdateDelta".to_string(), held));
        },
        other => panic!("read in strict mode: {:?}", other),
    }
}

#[test]
fn a_message_of_no_variant_says_why_it_is_none_of_them() {
    let error = from_text::<MqttResponse>(b"{\"timestamp\":\"now\"}", Strictness::Strict).unwrap_err();
    let wrong = DecodeError::Field("timestamp".to_string(), Box::new(DecodeError::Mismatch(Expected::Integer)));
    assert_eq!(
        error,
        DecodeError::SchemaMismatch(vec![
            ("UpdateDocuments".to_string(), wrong),
            ("UpdateAccepted".to_string(), DecodeError::MissingField("state".to_string())),
            ("UpdateDelta".to_string(), DecodeError::MissingField("state".to_string())),
            ("Error".to_string(), DecodeError::UnknownField("timestamp".to_string())),
        ])
    );
    assert_eq!(from_text::<MqttResponse>(b"{\"timestamp\":", Strictness::Strict), Err(DecodeError::Syntax));
}

#[test]
fn messages_come_back_unchanged() {
    for text in [DOCUMENTS, DELTA, ACCEPTED, "{\"code\":404,\"message\":\"No shadow exists\",\"clientToken\":\"t\"}"] {
        let message = from_text::<MqttResponse>(text.as_bytes(), Strictness::Strict).unwrap();
        assert_eq!(MqttResponse::decode(&message.encode(), Strictness::Strict), Ok(message));
    }
}

#[test]
fn a_timestamp_is_the_object_of_the_one_key_timestamp() {
    let doc = object(vec![("timestamp", unsigned(1686511299))]);
    assert_eq!(MqttMetadataTimestamp::decode(&doc, Strictness::Strict), Ok(stamp(1686511299)));
    assert_eq!(stamp(1686511299).encode(), doc);
    assert_eq!(stamp(u32::MAX).encode(), object(vec![("timestamp", unsigned(4294967295))]));
}

#[test]
fn a_state_key_named_timestamp_is_an_inner_node() {
    let doc = object(vec![("timestamp", object(vec![("timestamp", unsigned(5))]))]);
    let tree = nested(vec![("timestamp", stamp(5))]);
    assert_eq!(MqttMetadataTimestamp::decode(&doc, Strictness::Strict), Ok(tree));
    let two = object(vec![("timestamp", object(vec![("timestamp", unsigned(5))])), ("other", object(vec![]))]);
    assert_eq!(
        MqttMetadataTimestamp::decode(&two, Strictness::Strict),
        Ok(nested(vec![("timestamp", stamp(5)), ("other", nested(vec![]))]))
    );
}

#[test]
fn metadata_that_is_no_tree_is_refused_where_it_breaks() {
    assert_eq!(
        MqttMetadataTimestamp::decode(&unsigned(5), Strictness::Strict),
        Err(DecodeError::Mismatch(Expected::Object))
    );
    let too_large = object(vec![("timestamp", unsigned(4294967296))]);
    assert_eq!(
        MqttMetadataTimestamp::decode(&too_large, Strictness::Strict),
        Err(DecodeError::Field("timestamp".to_string(), Box::new(DecodeError::Mismatch(Expected::Object))))
    );
    let deep = object(vec![("a", object(vec![("timestamp", unsigned(1))])), ("b", object(vec![("c", text("x"))]))]);
    assert_eq!(
        MqttMetadataTimestamp::decode(&deep, Strictness::Lenient),
        Err(DecodeError::Field(
            "b".to_string(),
            Box::new(DecodeError::Field("c".to_string(), Box::new(DecodeError::Mismatch(Expected::Object))))
        ))
    );
}

#[test]
fn metadata_trees_come_back_unchanged() {
    let tree = nested(vec![
        ("a", stamp(1)),
        ("timestamp", stamp(2)),
        ("b", nested(vec![])),
        ("c", nested(vec![("timestamp", nested(vec![("d", stamp(3))]))])),
    ]);
    assert_eq!(MqttMetadataTimestamp::decode(&tree.encode(), Strictness::Strict), Ok(tree));
    let single = nested(vec![("timestamp", stamp(2))]);
    assert_eq!(MqttMetadataTimestamp::decode(&single.encode(), Strictness::Strict), Ok(single));
}

#[test]
fn the_captured_messages_mirror_state_and_metadata() {
    let delta = from_text::<MqttResponse>(DELTA.as_bytes(), Strictness::Strict).unwrap();
    assert!(delta.is_mirrored());
    let accepted = from_text::<MqttResponse>(ACCEPTED.as_bytes(), Strictness::Strict).unwrap();
    assert!(accepted.is_mirrored());
    match from_text::<MqttResponse>(DOCUMENTS.as_bytes(), Strictness::Strict).unwrap() {
        MqttResponse::UpdateDocuments(message) => {
            for document in [message.previous.unwrap(), message.current.unwrap()] {
                assert!(mirrors_if_present(&document.state.desired, &document.metadata.desired));
                assert!(mirrors_if_present(&document.state.reported, &document.metadata.reported));
                assert!(!mirrors_if_present(&document.state.reported, &document.metadata.desired));
            }
        },
        other => panic!("not documents: {:?}", other),
    }
}

#[test]
fn a_leaf_without_a_timestamp_breaks_the_mirror() {
    let state = object(vec![("a", unsigned(1)), ("b", object(vec![("c", text("x"))]))]);
    assert!(mirrors(&state, &nested(vec![("a", stamp(1)), ("b", nested(vec![("c", stamp(2))]))])));
    assert!(mirrors(&state, &nested(vec![("b", nested(vec![("c", stamp(2))])), ("a", stamp(1))])));
    assert!(!mirrors(&state, &nested(vec![("a", stamp(1)), ("b", nested(vec![]))])));
    assert!(!mirrors(&state, &nested(vec![("a", stamp(1))])));
    assert!(!mirrors(&state, &nested(vec![("a", stamp(1)), ("b", stamp(2))])));
    assert!(!mirrors(&state, &nested(vec![("a", stamp(1)), ("b", nested(vec![("c", stamp(2)), ("d", stamp(3))]))])));
    assert!(!mirrors(&state, &stamp(1)));
}

#[test]
fn a_leaf_mirrors_a_timestamp_and_nothing_else() {
    assert!(mirrors(&unsigned(1), &stamp(1)));
    assert!(mirrors(&Json::Null, &stamp(1)));
    assert!(mirrors(&Json::Array(vec![object(vec![])]), &stamp(1)));
    assert!(!mirrors(&unsigned(1), &nested(vec![])));
    assert!(!mirrors(&object(vec![]), &stamp(1)));
}

#[test]
fn objects_without_leaves_mirror_trees_without_timestamps() {
    let hollow = object(vec![("aux_1", object(vec![]))]);
    assert!(mirrors(&hollow, &nested(vec![("aux_1", nested(vec![]))])));
    assert!(mirrors(&hollow, &nested(vec![])));
    assert!(mirrors(&object(vec![]), &nested(vec![("x", nested(vec![("y", nested(vec![]))]))])));
    assert!(has_no_leaf(&hollow));
    assert!(!has_no_leaf(&object(vec![("aux_1", object(vec![("a", Json::Null)]))])));
    assert!(!has_no_leaf(&Json::Null));
    assert!(has_no_stamp(&nested(vec![("x", nested(vec![]))])));
    assert!(!has_no_stamp(&nested(vec![("x", nested(vec![("y", stamp(1))]))])));
    assert!(!has_no_stamp(&stamp(1)));
    assert!(mirrors_if_present(&None, &None));
    assert!(mirrors_if_present(&Some(hollow), &None));
    assert!(!mirrors_if_present(&Some(unsigned(1)), &None));
    assert!(!mirrors_if_present(&None, &Some(stamp(1))));
}

#[test]
fn a_message_that_does_not_mirror_is_read_all_the_same() {
    let text = b"{\"state\":{\"a\":1},\"metadata\":{},\"version\":1,\"timestamp\":2}";
    let message = from_text::<MqttResponse>(text, Strictness::Strict).unwrap();
    assert_eq!(message.kind(), MessageKind::UpdateDelta);
    assert!(!message.is_mirrored());
    let doc = Json::parse(text).unwrap();
    assert_eq!(MqttResponse::decode_mirrored(&doc, Strictness::Strict), Err(DecodeError::Unmirrored));
}

#[test]
fn a_message_that_mirrors_is_read_the_same_when_it_is_held_to_it() {
    for text in [DOCUMENTS, DELTA, ACCEPTED] {
        let doc = Json::parse(text.as_bytes()).unwrap();
        for mode in [Strictness::Strict, Strictness::Lenient] {
            assert_eq!(MqttResponse::decode_mirrored(&doc, mode), MqttResponse::decode(&doc, mode));
            assert!(MqttResponse::decode_mirrored(&doc, mode).is_ok());
        }
    }
    assert_eq!(MqttResponse::decode_mirrored(&Json::Null, Strictness::Strict), MqttResponse::decode(&Json::Null, Strictness::Strict));
}

#[test]
fn the_reported_state_of_the_documents_message_is_that_of_a_chlorinator_system() {
    let doc = Json::parse(DOCUMENTS.as_bytes()).unwrap();
    let reported = match &doc {
        Json::Object(message) => match find(message, "current") {
            Some(Json::Object(current)) => match find(current, "state") {
                Some(Json::Object(state)) => find(state, "reported").cloned(),
                _ => None,
            },
            _ => None,
        },
        _ => None,
    }
    .unwrap();
    for mode in [Strictness::Strict, Strictness::Lenient] {
        match ReportedState::decode(&reported, mode) {
            Ok(ReportedState::Exo(state)) => {
                assert_eq!(state.vr, "V85W4");
                assert_eq!(state.aws.timestamp, 1686468192272);
                assert_eq!(state.equipment.swc_0.sns_1.value, 57);
                assert_eq!(state.equipment.swc_0.vsp_speed.min, 600);
                assert_eq!(state.schedules.as_ref().unwrap().sch10.endpoint, "aux2");
                assert_eq!(state.schedules.as_ref().unwrap().sch9.timer.end, "23:59");
                assert_eq!(state.heating.as_ref().unwrap().sp, 28);
                assert_eq!(state.debug_main, Some(object(vec![("tr", unsigned(100))])));
                assert_eq!(state.extra, vec![]);
                let again = ReportedState::decode(&ReportedState::Exo(state).encode(), mode);
                assert_eq!(again, ReportedState::decode(&reported, mode));
            },
            other => panic!("not a chlorinator system: {:?}", other),
        }
    }
}

fn reported_of_the_documents_message() -> Json {
    let doc = Json::parse(DOCUMENTS.as_bytes()).unwrap();
    match &doc {
        Json::Object(message) => match find(message, "current") {
            Some(Json::Object(current)) => match find(current, "state") {
                Some(Json::Object(state)) => find(state, "reported").cloned(),
                _ => None,
            },
            _ => None,
        },
        _ => None,
    }
    .unwrap()
}

#[test]
fn a_patch_that_is_no_object_takes_the_place_of_the_base() {
    assert_eq!(unsigned(1).merge(&text("x")), text("x"));
    assert_eq!(object(vec![("a", unsigned(1))]).merge(&Json::Null), Json::Null);
    assert_eq!(object(vec![("a", unsigned(1))]).merge(&Json::Array(vec![])), Json::Array(vec![]));
    assert_eq!(text("x").merge(&object(vec![("a", unsigned(1))])), object(vec![("a", unsigned(1))]));
}

#[test]
fn a_patch_is_laid_over_an_object_name_by_name() {
    let base = object(vec![
        ("a", unsigned(1)),
        ("b", object(vec![("c", unsigned(2)), ("d", unsigned(3))])),
        ("e", text("kept")),
    ]);
    let patch = object(vec![
        ("b", object(vec![("d", unsigned(30)), ("f", unsigned(4))])),
        ("g", object(vec![("h", Json::Null)])),
        ("a", object(vec![("i", unsigned(5))])),
    ]);
    let merged = object(vec![
        ("a", object(vec![("i", unsigned(5))])),
        ("b", object(vec![("c", unsigned(2)), ("d", unsigned(30)), ("f", unsigned(4))])),
        ("e", text("kept")),
        ("g", object(vec![("h", Json::Null)])),
    ]);
    assert_eq!(base.merge(&patch), merged);
    assert_eq!(base.merge(&object(vec![])), base);
    assert_eq!(object(vec![]).merge(&patch), patch);
    assert_eq!(merged.merge(&patch), merged);
}

#[test]
fn the_changes_of_the_delta_are_laid_over_the_reported_state() {
    let reported = ReportedState::decode(&reported_of_the_documents_message(), Strictness::Strict).unwrap();
    let delta = match from_text::<MqttResponse>(DELTA.as_bytes(), Strictness::Strict).unwrap() {
        MqttResponse::UpdateDelta(delta) => delta,
        other => panic!("not a delta: {:?}", other),
    };
    match reported.updated(&delta.state, Strictness::Strict) {
        Ok(ReportedState::Exo(state)) => {
            let schedules = state.schedules.as_ref().unwrap();
            assert_eq!(schedules.sch1.timer.start, "09:13");
            assert_eq!(schedules.sch1.timer.end, "11:00");
            assert_eq!(schedules.sch2.timer.start, "14:00");
            assert_eq!(schedules.sch2.timer.end, "20:13");
            assert_eq!(schedules.sch4.timer.end, "20:13");
            assert_eq!(schedules.sch9.timer.end, "23:59");
            assert_eq!(schedules.sch1.name, "Salt Water Chlorinator 1");
            assert_eq!(state.heating.as_ref().unwrap().sp, 28);
            assert_eq!(state.equipment.swc_0.orp_sp, 740);
        },
        other => panic!("not a chlorinator system: {:?}", other),
    }
}

#[test]
fn changes_that_change_nothing_leave_the_state_as_it_is() {
    let doc = reported_of_the_documents_message();
    for mode in [Strictness::Strict, Strictness::Lenient] {
        let reported = ReportedState::decode(&doc, mode).unwrap();
        assert_eq!(reported.updated(&object(vec![]), mode), ReportedState::decode(&doc, mode));
    }
}

#[test]
fn changes_that_do_not_fit_the_state_are_refused() {
    let reported = ReportedState::decode(&reported_of_the_documents_message(), Strictness::Strict).unwrap();
    let changes = object(vec![("heating", object(vec![("sp", text("warm"))]))]);
    let not_exo = DecodeError::Field(
        "heating".to_string(),
        Box::new(DecodeError::Field("sp".to_string(), Box::new(DecodeError::Mismatch(Expected::Integer)))),
    );
    assert_eq!(
        reported.updated(&changes, Strictness::Lenient),
        Err(DecodeError::SchemaMismatch(vec![
            ("Exo".to_string(), not_exo),
            ("Vr".to_string(), DecodeError::MissingField("timestamp".to_string())),
        ]))
    );
    let unknown = object(vec![("boost", unsigned(1))]);
    assert!(reported.updated(&unknown, Strictness::Strict).is_err());
    match reported.updated(&unknown, Strictness::Lenient) {
        Ok(ReportedState::Exo(state)) => assert_eq!(find(&state.extra, "boost"), Some(&unsigned(1))),
        other => panic!("not a chlorinator system: {:?}", other),
    }
}
